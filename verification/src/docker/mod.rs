//! The registry blob probe: how fast a layer of an image comes from a
//! registry mirror within a time budget.
//!
//! The probe is a state machine. The caller performs each
//! [`RegistryAction`] on the network and reports what happened as a
//! [`RegistryEvent`], with the time that had passed on the probe's clock;
//! [`test_registry_with_manifest_approach`] decides how the probe goes on.

pub mod get_manifest;

use crate::config::{list_result, read_list, yaml_list, ConfigError};
use crate::docker::get_manifest::{
    answered, blob_url, blob_url_text, digest_manifest_request, fetch_digest_manifest,
    fetch_tag_manifest, is_digest_manifest_request, is_tag_manifest_request, layer_sizes,
    manifest_url_text, refused_as, select_layer, selected_layer,
    tag_manifest_request, DigestManifest, FetchError, HttpReply, HttpRequest, ManifestList,
};
use crate::text::{
    all_digits, contains, contains_char, decimal, decimal_text, find_char, first_index,
    is_all_digits, join, last_index, occurs, option_text, rfind_char, slice,
};
use crate::transfer::{
    advance, bits_per_second, budget_nanos, budget_of, speed_bits_per_second, step, StatusPolicy,
    Transfer, TransferError, TransferEvent,
};
use vstd::prelude::*;
use vstd::string::*;

verus! {

/// The shape of an image reference: an optional registry host with an optional
/// port, an optional namespace, a name, an optional tag and an optional digest.
pub const IMAGE_NAME_PATTERN: &'static str =
    r"^(?:[a-zA-Z0-9\-._]+(?::[0-9]+)?/)?(?:[a-z0-9\-._]+/)?[a-z0-9\-._]+(?::[a-zA-Z0-9\-._]+)?(?:@[a-zA-Z0-9\-._:]+)?$";

/// The key under which the list of registry mirrors stands.
pub const REGISTRY_LIST_KEY: &'static str = "registryList";

/// Where the list of registry mirrors is published.
pub const DOCKER_CONFIG_URL: &'static str =
    "https://raw.githubusercontent.com/403unlocker/403Unlocker-cli/refs/heads/main/config/dockerRegistry.yml";

/// The tag of an image reference that names none.
pub const DEFAULT_TAG: &'static str = "latest";

/// The size of the pieces in which the blob is read.
pub const DOWNLOAD_CHUNK_BYTES: usize = 8192;

/// The user agent of the blob download.
pub const DOWNLOAD_USER_AGENT: &'static str = "registry-speed-tester/0.1";

/// What the `regex` crate answers for `pattern` and `text`: `None` where
/// `Regex::new(pattern)` refuses the pattern, else whether
/// `Regex::is_match(text)` finds a match of it in `text`.
pub uninterp spec fn regex_match(pattern: Seq<char>, text: Seq<char>) -> Option<bool>;

/// Compiles `pattern` with `regex::Regex::new` and asks `Regex::is_match` for
/// `text`. Both depend on their arguments alone; the contract gives the answer
/// its name and says nothing of what it is.
#[verifier::external_body]
fn regex_is_match(pattern: &str, text: &str) -> (answer: Option<bool>)
    ensures
        answer == regex_match(pattern@, text@),
{
    match regex::Regex::new(pattern) {
        Ok(re) => Some(re.is_match(text)),
        Err(_) => None,
    }
}

/// The registry mirrors in the document `content`: the strings of the
/// sequence under `registryList`, in order.
pub fn read_docker_registries_file(content: &str) -> (result: Result<Vec<String>, ConfigError>)
    ensures
        list_result(yaml_list(content@, REGISTRY_LIST_KEY@), REGISTRY_LIST_KEY@, result),
{
    read_list(content, REGISTRY_LIST_KEY)
}

/// An image reference is accepted when the pattern matched it and it holds no
/// `@@`.
pub open spec fn image_name_accepted(matched: Option<bool>, name: Seq<char>) -> bool {
    matched == Some(true) && !occurs(name, "@@"@)
}

/// Whether `image_name` is accepted, given what the pattern match answered.
pub fn image_name_verdict(matched: Option<bool>, image_name: &str) -> (valid: bool)
    ensures
        valid == image_name_accepted(matched, image_name@),
{
    match matched {
        Some(true) => !contains(image_name, "@@"),
        _ => false,
    }
}

/// Whether `image_name` has the shape of an image reference.
pub fn validate_docker_image_name(image_name: &str) -> (valid: bool)
    ensures
        valid == image_name_accepted(
            regex_match(IMAGE_NAME_PATTERN@, image_name@),
            image_name@,
        ),
{
    let matched = regex_is_match(IMAGE_NAME_PATTERN, image_name);
    image_name_verdict(matched, image_name)
}

/// Repository and tag of an image reference.
///
/// * With an `@`, everything before the first `@` is the repository and the
///   tag is `latest`.
/// * Otherwise, with a `:`, look at the text after the last `:`. Where it
///   holds a `/`, the `:` belongs to a host with a port and no tag is named:
///   the whole reference is the repository and the tag is `latest`. The same
///   holds where that text is all digits and the part before the `:` holds a
///   `/`. In every other case the text after the last `:` is the tag and the
///   text before it the repository.
/// * Otherwise the whole reference is the repository and the tag is `latest`.
pub open spec fn image_parts(name: Seq<char>) -> (Seq<char>, Seq<char>) {
    match first_index(name, '@') {
        Some(at) => (name.take(at), DEFAULT_TAG@),
        None => match last_index(name, ':') {
            Some(colon) => {
                let before = name.take(colon);
                let after = name.skip(colon + 1);
                if after.contains('/') || (all_digits(after) && before.contains('/')) {
                    (name, DEFAULT_TAG@)
                } else {
                    (before, after)
                }
            },
            None => (name, DEFAULT_TAG@),
        },
    }
}

/// Splits an image reference into repository and tag.
pub fn parse_image_name(image_name: &str) -> (parts: (String, String))
    ensures
        parts.0@ == image_parts(image_name@).0,
        parts.1@ == image_parts(image_name@).1,
{
    let n = image_name.unicode_len();
    match find_char(image_name, '@') {
        Some(at) => {
            assert(image_name@.take(at as int) =~= image_name@.subrange(0, at as int));
            (slice(image_name, 0, at), String::from_str(DEFAULT_TAG))
        },
        None => match rfind_char(image_name, ':') {
            Some(colon) => {
                let before = slice(image_name, 0, colon);
                let after = slice(image_name, colon + 1, n);
                proof {
                    assert(image_name@.take(colon as int) =~= before@);
                    assert(image_name@.skip(colon + 1) =~= after@);
                }
                if contains_char(after.as_str(), '/') || (is_all_digits(after.as_str())
                    && contains_char(before.as_str(), '/')) {
                    (String::from_str(image_name), String::from_str(DEFAULT_TAG))
                } else {
                    (before, after)
                }
            },
            None => (String::from_str(image_name), String::from_str(DEFAULT_TAG)),
        },
    }
}

/// The base address of a registry: the registry as given where it names a
/// scheme, else with `https://` in front.
pub open spec fn registry_url_text(registry: Seq<char>) -> Seq<char> {
    if occurs(registry, "://"@) {
        registry
    } else {
        "https://"@ + registry
    }
}

/// The base address of `registry`.
pub fn registry_base_url(registry: &str) -> (url: String)
    ensures
        url@ == registry_url_text(registry@),
{
    if contains(registry, "://") {
        String::from_str(registry)
    } else {
        join("https://", registry)
    }
}

/// Why no layer could be chosen.
#[derive(Debug, Clone, PartialEq, Eq)]
pub enum LookupError {
    /// The manifest of the tag could not be fetched.
    List(FetchError),
    /// The concrete manifest could not be fetched; `direct` where it was
    /// asked for by tag.
    Manifest { direct: bool, error: FetchError },
    /// The concrete manifest has no layers.
    NoLayers { direct: bool },
}

impl LookupError {
    /// The text of this error.
    pub open spec fn text(self) -> Seq<char> {
        match self {
            LookupError::List(e) => "Failed to fetch tag manifest: "@ + e.text(),
            LookupError::Manifest { direct, error } => if direct {
                "Failed to fetch direct manifest: "@ + error.text()
            } else {
                "Failed to fetch digest manifest: "@ + error.text()
            },
            LookupError::NoLayers { direct } => if direct {
                "No layers found in direct manifest"@
            } else {
                "No layers found in digest manifest"@
            },
        }
    }

    /// The text of this error.
    pub fn message(&self) -> (m: String)
        ensures
            m@ == self.text(),
    {
        match self {
            LookupError::List(e) => {
                let inner = e.message();
                join("Failed to fetch tag manifest: ", inner.as_str())
            },
            LookupError::Manifest { direct, error } => {
                let inner = error.message();
                if *direct {
                    join("Failed to fetch direct manifest: ", inner.as_str())
                } else {
                    join("Failed to fetch digest manifest: ", inner.as_str())
                }
            },
            LookupError::NoLayers { direct } => {
                if *direct {
                    String::from_str("No layers found in direct manifest")
                } else {
                    String::from_str("No layers found in digest manifest")
                }
            },
        }
    }
}

/// Where the search for a layer stands.
#[derive(Debug, Clone, PartialEq, Eq)]
pub enum LayerLookup {
    /// The manifest of the tag has been asked for.
    AwaitingList,
    /// The concrete manifest `reference` has been asked for; `direct` where
    /// `reference` is the tag itself.
    AwaitingManifest { reference: String, direct: bool },
    /// The layer to download.
    Found { digest: String },
    /// No layer could be chosen.
    Failed(LookupError),
}

/// The answer to a manifest request.
#[derive(Debug, Clone, PartialEq, Eq)]
pub enum ManifestReply {
    /// To the request for the tag's manifest.
    List(HttpReply<ManifestList>),
    /// To the request for a concrete manifest.
    Manifest(HttpReply<DigestManifest>),
}

/// `next` is what the search `state` becomes on `reply`.
///
/// * Awaiting the list: a 200 leads to the request for a concrete manifest,
///   by the digest of the first entry where the body is a list with entries,
///   else by the tag itself; any other answer fails the search.
/// * Awaiting the manifest: a 200 with a manifest that has layers finds the
///   layer that [`selected_layer`] selects; one without layers, a body that is
///   no manifest, or any other answer fails the search.
/// * A reply that the state does not await changes nothing.
pub open spec fn lookup_step(
    registry_url: Seq<char>,
    repository: Seq<char>,
    tag: Seq<char>,
    state: LayerLookup,
    reply: ManifestReply,
    next: LayerLookup,
) -> bool {
    match (state, reply) {
        (LayerLookup::AwaitingList, ManifestReply::List(r)) => if answered(r) {
            &&& next matches LayerLookup::AwaitingManifest { reference, direct }
            &&& if r->body is Some && r->body->0.manifests@.len() > 0 {
                reference@ == r->body->0.manifests@[0].digest@ && !direct
            } else {
                reference@ == tag && direct
            }
        } else {
            &&& next matches LayerLookup::Failed(LookupError::List(e))
            &&& refused_as(r, manifest_url_text(registry_url, repository, tag), e)
        },
        (
            LayerLookup::AwaitingManifest { reference, direct },
            ManifestReply::Manifest(r),
        ) => if answered(r) {
            match r->body {
                Some(manifest) => if manifest.layers@.len() == 0 {
                    next == LayerLookup::Failed(LookupError::NoLayers { direct })
                } else {
                    &&& next matches LayerLookup::Found { digest }
                    &&& digest@ == manifest.layers@[selected_layer(
                        layer_sizes(manifest.layers@),
                    )].digest@
                },
                None => next == LayerLookup::Failed(
                    LookupError::Manifest { direct, error: FetchError::Malformed },
                ),
            }
        } else {
            &&& next matches LayerLookup::Failed(LookupError::Manifest { direct: d, error: e })
            &&& d == direct
            &&& refused_as(r, manifest_url_text(registry_url, repository, reference@), e)
        },
        _ => next == state,
    }
}

/// Moves the search for a layer on by one answer.
pub fn get_first_layer_digest(
    registry_url: &str,
    repository: &str,
    tag: &str,
    state: LayerLookup,
    reply: ManifestReply,
) -> (next: LayerLookup)
    ensures
        lookup_step(registry_url@, repository@, tag@, state, reply, next),
{
    match state {
        LayerLookup::AwaitingList => match reply {
            ManifestReply::List(r) => {
                match fetch_tag_manifest(registry_url, repository, tag, r) {
                    Ok(list) => {
                        if list.manifests.len() == 0 {
                            LayerLookup::AwaitingManifest {
                                reference: String::from_str(tag),
                                direct: true,
                            }
                        } else {
                            LayerLookup::AwaitingManifest {
                                reference: list.manifests[0].digest.clone(),
                                direct: false,
                            }
                        }
                    },
                    Err(e) => LayerLookup::Failed(LookupError::List(e)),
                }
            },
            ManifestReply::Manifest(r) => LayerLookup::AwaitingList,
        },
        LayerLookup::AwaitingManifest { reference, direct } => match reply {
            ManifestReply::Manifest(r) => {
                match fetch_digest_manifest(registry_url, repository, reference.as_str(), r) {
                    Ok(manifest) => {
                        match select_layer(&manifest.layers) {
                            Some(k) => LayerLookup::Found {
                                digest: manifest.layers[k].digest.clone(),
                            },
                            None => LayerLookup::Failed(LookupError::NoLayers { direct }),
                        }
                    },
                    Err(e) => LayerLookup::Failed(LookupError::Manifest { direct, error: e }),
                }
            },
            ManifestReply::List(r) => LayerLookup::AwaitingManifest { reference, direct },
        },
        LayerLookup::Found { digest } => LayerLookup::Found { digest },
        LayerLookup::Failed(e) => LayerLookup::Failed(e),
    }
}

/// Moves the blob download on by one event: the shared download with the
/// registry's rule that only a 200 lets the body be read.
pub fn download_with_ureq(
    transfer: Transfer,
    event: TransferEvent,
    elapsed_nanos: u128,
    max_duration_nanos: u128,
) -> (next: Transfer)
    ensures
        next == advance(
            transfer,
            event,
            elapsed_nanos as nat,
            max_duration_nanos as nat,
            StatusPolicy::OkOnly,
        ),
{
    step(transfer, event, elapsed_nanos, max_duration_nanos, StatusPolicy::OkOnly)
}

/// Why a registry probe measured nothing.
#[derive(Debug, Clone, PartialEq, Eq)]
pub enum RegistryError {
    /// No layer could be chosen.
    Lookup(LookupError),
    /// The budget was used up before the download could start.
    ManifestTimeout,
    /// The download failed.
    Download(TransferError),
}

impl RegistryError {
    /// The text of this error.
    pub open spec fn text(self) -> Seq<char> {
        match self {
            RegistryError::Lookup(e) => "Failed to get layer digest: "@ + e.text(),
            RegistryError::ManifestTimeout => "Timeout during manifest fetching"@,
            RegistryError::Download(TransferError::Status(code)) => "HTTP error: "@ + decimal(
                code as nat,
            ),
            RegistryError::Download(TransferError::Connect(reason)) => reason@,
            RegistryError::Download(TransferError::Read(reason)) => "Download failed: "@
                + reason@,
        }
    }

    /// The text of this error.
    pub fn message(&self) -> (m: String)
        ensures
            m@ == self.text(),
    {
        match self {
            RegistryError::Lookup(e) => {
                let inner = e.message();
                join("Failed to get layer digest: ", inner.as_str())
            },
            RegistryError::ManifestTimeout => String::from_str("Timeout during manifest fetching"),
            RegistryError::Download(TransferError::Status(code)) => {
                let number = decimal_text(*code as u64);
                join("HTTP error: ", number.as_str())
            },
            RegistryError::Download(TransferError::Connect(reason)) => reason.clone(),
            RegistryError::Download(TransferError::Read(reason)) => join(
                "Download failed: ",
                reason.as_str(),
            ),
        }
    }
}

/// Where a registry probe stands.
#[derive(Debug, PartialEq, Eq)]
pub enum RegistryProbe {
    /// A layer is being looked for.
    Lookup(LayerLookup),
    /// The layer `digest` is being downloaded; the request may take
    /// `timeout_nanos`, which is what was left of the budget when the layer
    /// was found.
    Download { digest: String, timeout_nanos: u128, transfer: Transfer },
    /// The probe is over: the bytes it measured, or why it measured none.
    Done(Result<u64, RegistryError>),
}

/// What happened on the network.
#[derive(Debug, Clone, PartialEq, Eq)]
pub enum RegistryEvent {
    /// A manifest request was answered.
    Manifest(ManifestReply),
    /// Something happened to the blob download.
    Transfer(TransferEvent),
}

/// What the search `found` means for the probe at `elapsed`: a layer starts
/// the download with what is left of the budget, or ends the probe where
/// nothing is left; a failed search ends the probe; an open one goes on.
pub open spec fn after_lookup(found: LayerLookup, elapsed: nat, budget: nat, next: RegistryProbe)
    -> bool {
    match found {
        LayerLookup::Found { digest } => if elapsed >= budget {
            next == RegistryProbe::Done(Err(RegistryError::ManifestTimeout))
        } else {
            next == (RegistryProbe::Download {
                digest,
                timeout_nanos: (budget - elapsed) as u128,
                transfer: Transfer::Connecting,
            })
        },
        LayerLookup::Failed(e) => next == RegistryProbe::Done(Err(RegistryError::Lookup(e))),
        _ => next == RegistryProbe::Lookup(found),
    }
}

/// What the download `moved` means for the probe: a finished one ends the
/// probe with its bytes, a failed one with its error, an open one goes on.
pub open spec fn after_transfer(digest: String, timeout_nanos: u128, moved: Transfer) -> RegistryProbe {
    match moved {
        Transfer::Finished { bytes } => RegistryProbe::Done(Ok(bytes)),
        Transfer::Failed(e) => RegistryProbe::Done(Err(RegistryError::Download(e))),
        _ => RegistryProbe::Download { digest, timeout_nanos, transfer: moved },
    }
}

/// `next` is what the probe `state` becomes on `event`, seen at `elapsed`.
///
/// * While a layer is looked for, a manifest answer moves the search
///   ([`lookup_step`]) and its outcome decides ([`after_lookup`]).
/// * While the layer is downloaded, a transfer event moves the download
///   ([`advance`], a 200 required) and its outcome decides
///   ([`after_transfer`]).
/// * Any other event, and any event once the probe is over, changes nothing.
pub open spec fn registry_step(
    registry_url: Seq<char>,
    repository: Seq<char>,
    tag: Seq<char>,
    budget: nat,
    state: RegistryProbe,
    event: RegistryEvent,
    elapsed: nat,
    next: RegistryProbe,
) -> bool {
    match (state, event) {
        (RegistryProbe::Lookup(search), RegistryEvent::Manifest(reply)) => exists|
            found: LayerLookup,
        |
            lookup_step(registry_url, repository, tag, search, reply, found) && after_lookup(
                found,
                elapsed,
                budget,
                next,
            ),
        (
            RegistryProbe::Download { digest, timeout_nanos, transfer },
            RegistryEvent::Transfer(e),
        ) => next == after_transfer(
            digest,
            timeout_nanos,
            advance(transfer, e, elapsed, budget, StatusPolicy::OkOnly),
        ),
        _ => next == state,
    }
}

/// The probe before anything has happened: the tag's manifest is asked for.
pub fn start_registry_probe() -> (state: RegistryProbe)
    ensures
        state == RegistryProbe::Lookup(LayerLookup::AwaitingList),
{
    RegistryProbe::Lookup(LayerLookup::AwaitingList)
}

/// Moves a registry probe on by one event, seen at `elapsed_nanos` on the
/// probe's clock, under the budget `max_duration_nanos`.
pub fn test_registry_with_manifest_approach(
    registry_url: &str,
    repository: &str,
    tag: &str,
    max_duration_nanos: u128,
    state: RegistryProbe,
    event: RegistryEvent,
    elapsed_nanos: u128,
) -> (next: RegistryProbe)
    ensures
        registry_step(
            registry_url@,
            repository@,
            tag@,
            max_duration_nanos as nat,
            state,
            event,
            elapsed_nanos as nat,
            next,
        ),
{
    match state {
        RegistryProbe::Lookup(search) => match event {
            RegistryEvent::Manifest(reply) => {
                let found = get_first_layer_digest(registry_url, repository, tag, search, reply);
                let ghost witness = found;
                let next = match found {
                    LayerLookup::Found { digest } => {
                        if elapsed_nanos >= max_duration_nanos {
                            RegistryProbe::Done(Err(RegistryError::ManifestTimeout))
                        } else {
                            RegistryProbe::Download {
                                digest,
                                timeout_nanos: max_duration_nanos - elapsed_nanos,
                                transfer: Transfer::Connecting,
                            }
                        }
                    },
                    LayerLookup::Failed(e) => RegistryProbe::Done(Err(RegistryError::Lookup(e))),
                    LayerLookup::AwaitingList => RegistryProbe::Lookup(LayerLookup::AwaitingList),
                    LayerLookup::AwaitingManifest { reference, direct } => RegistryProbe::Lookup(
                        LayerLookup::AwaitingManifest { reference, direct },
                    ),
                };
                assert(after_lookup(
                    witness,
                    elapsed_nanos as nat,
                    max_duration_nanos as nat,
                    next,
                ));
                next
            },
            RegistryEvent::Transfer(e) => RegistryProbe::Lookup(search),
        },
        RegistryProbe::Download { digest, timeout_nanos, transfer } => match event {
            RegistryEvent::Transfer(e) => {
                let moved = download_with_ureq(transfer, e, elapsed_nanos, max_duration_nanos);
                match moved {
                    Transfer::Finished { bytes } => RegistryProbe::Done(Ok(bytes)),
                    Transfer::Failed(err) => RegistryProbe::Done(
                        Err(RegistryError::Download(err)),
                    ),
                    Transfer::Connecting => RegistryProbe::Download {
                        digest,
                        timeout_nanos,
                        transfer: Transfer::Connecting,
                    },
                    Transfer::Reading { bytes } => RegistryProbe::Download {
                        digest,
                        timeout_nanos,
                        transfer: Transfer::Reading { bytes },
                    },
                }
            },
            RegistryEvent::Manifest(reply) => RegistryProbe::Download {
                digest,
                timeout_nanos,
                transfer,
            },
        },
        RegistryProbe::Done(outcome) => RegistryProbe::Done(outcome),
    }
}

/// What the caller is to do for a probe.
#[derive(Debug, Clone, PartialEq, Eq)]
pub enum RegistryAction {
    /// Send the request and report the body decoded as a manifest list.
    FetchList(HttpRequest),
    /// Send the request and report the body decoded as a manifest.
    FetchManifest(HttpRequest),
    /// Send a GET for `url` that may take `timeout_nanos`, and report the
    /// status.
    OpenBlob { url: String, user_agent: String, timeout_nanos: u128 },
    /// Read the next piece of the body and report it.
    ReadBlob,
    /// Nothing: the probe is over.
    Stop,
}

/// `action` is what the probe `state` asks of the caller.
///
/// * Awaiting the list: the request for the tag's manifest, which accepts
///   manifest lists before single manifests.
/// * Awaiting the manifest: the request for the concrete manifest, which
///   accepts a single manifest only.
/// * Downloading: first the GET for the blob of the chosen layer, with what
///   was left of the budget as its time limit; then one read after the other.
/// * Otherwise nothing.
pub open spec fn registry_asks(
    registry_url: Seq<char>,
    repository: Seq<char>,
    tag: Seq<char>,
    state: RegistryProbe,
    action: RegistryAction,
) -> bool {
    match state {
        RegistryProbe::Lookup(LayerLookup::AwaitingList) => {
            &&& action matches RegistryAction::FetchList(request)
            &&& is_tag_manifest_request(request, registry_url, repository, tag)
        },
        RegistryProbe::Lookup(LayerLookup::AwaitingManifest { reference, direct }) => {
            &&& action matches RegistryAction::FetchManifest(request)
            &&& is_digest_manifest_request(request, registry_url, repository, reference@)
        },
        RegistryProbe::Download { digest, timeout_nanos, transfer } => match transfer {
            Transfer::Connecting => {
                &&& action matches RegistryAction::OpenBlob { url, user_agent, timeout_nanos: t }
                &&& url@ == blob_url_text(registry_url, repository, digest@)
                &&& user_agent@ == DOWNLOAD_USER_AGENT@
                &&& t == timeout_nanos
            },
            Transfer::Reading { .. } => action is ReadBlob,
            _ => action is Stop,
        },
        _ => action is Stop,
    }
}

/// What the probe `state` asks of the caller.
pub fn registry_action(registry_url: &str, repository: &str, tag: &str, state: &RegistryProbe) -> (action:
    RegistryAction)
    ensures
        registry_asks(registry_url@, repository@, tag@, *state, action),
{
    match state {
        RegistryProbe::Lookup(LayerLookup::AwaitingList) => RegistryAction::FetchList(
            tag_manifest_request(registry_url, repository, tag),
        ),
        RegistryProbe::Lookup(
            LayerLookup::AwaitingManifest { reference, direct },
        ) => RegistryAction::FetchManifest(
            digest_manifest_request(registry_url, repository, reference.as_str()),
        ),
        RegistryProbe::Download { digest, timeout_nanos, transfer } => match transfer {
            Transfer::Connecting => RegistryAction::OpenBlob {
                url: blob_url(registry_url, repository, digest.as_str()),
                user_agent: String::from_str(DOWNLOAD_USER_AGENT),
                timeout_nanos: *timeout_nanos,
            },
            Transfer::Reading { .. } => RegistryAction::ReadBlob,
            _ => RegistryAction::Stop,
        },
        _ => RegistryAction::Stop,
    }
}

/// The result of probing one registry.
#[derive(Debug, Clone, PartialEq, Eq)]
pub struct DockerRegistryTestResult {
    pub registry: String,
    pub image_name: String,
    pub success: bool,
    /// Throughput in bits per second, rounded down.
    pub download_speed_bps: u128,
    pub downloaded_bytes: u64,
    /// Time on the probe's clock, in nanoseconds.
    pub test_duration_nanos: u128,
    pub error_message: Option<String>,
    pub session_id: u64,
}

/// The results of probing a list of registries.
#[derive(Debug, Clone, PartialEq, Eq)]
pub struct DockerRegistryBulkTestResult {
    pub image_name: String,
    pub total_registries: usize,
    pub successful_tests: Vec<DockerRegistryTestResult>,
    pub failed_tests: Vec<DockerRegistryTestResult>,
    pub test_duration_ms: u64,
    pub best_registry: Option<String>,
    /// Throughput of the best registry in bits per second.
    pub best_speed_bps: u128,
}

/// What a [`DockerRegistryTestResult`] says.
pub struct RegistryResultView {
    pub registry: Seq<char>,
    pub image_name: Seq<char>,
    pub success: bool,
    pub download_speed_bps: nat,
    pub downloaded_bytes: nat,
    pub test_duration_nanos: nat,
    pub error_message: Option<Seq<char>>,
    pub session_id: nat,
}

impl View for DockerRegistryTestResult {
    type V = RegistryResultView;

    open spec fn view(&self) -> RegistryResultView {
        RegistryResultView {
            registry: self.registry@,
            image_name: self.image_name@,
            success: self.success,
            download_speed_bps: self.download_speed_bps as nat,
            downloaded_bytes: self.downloaded_bytes as nat,
            test_duration_nanos: self.test_duration_nanos as nat,
            error_message: option_text(self.error_message),
            session_id: self.session_id as nat,
        }
    }
}

/// The result of a probe that measured nothing, after `elapsed` nanoseconds.
pub open spec fn registry_failure(
    registry: Seq<char>,
    image_name: Seq<char>,
    message: Seq<char>,
    elapsed: nat,
) -> RegistryResultView {
    RegistryResultView {
        registry,
        image_name,
        success: false,
        download_speed_bps: 0,
        downloaded_bytes: 0,
        test_duration_nanos: elapsed,
        error_message: Some(message),
        session_id: 0,
    }
}

/// The result of a probe that ended with `outcome` after `elapsed`
/// nanoseconds: a success with its throughput where bytes were measured, a
/// failure where none were or the probe failed.
pub open spec fn registry_result(
    registry: Seq<char>,
    image_name: Seq<char>,
    outcome: Result<u64, RegistryError>,
    elapsed: nat,
) -> RegistryResultView {
    match outcome {
        Ok(bytes) => if bytes > 0 {
            RegistryResultView {
                registry,
                image_name,
                success: true,
                download_speed_bps: bits_per_second(bytes as nat, elapsed),
                downloaded_bytes: bytes as nat,
                test_duration_nanos: elapsed,
                error_message: None,
                session_id: 0,
            }
        } else {
            registry_failure(registry, image_name, "No data downloaded"@, elapsed)
        },
        Err(e) => registry_failure(registry, image_name, e.text(), elapsed),
    }
}

/// What a registry test is to probe.
#[derive(Debug, Clone, PartialEq, Eq)]
pub struct RegistryPlan {
    pub registry_url: String,
    pub repository: String,
    pub tag: String,
    pub budget_nanos: u128,
}

/// What is handed to a registry test.
#[derive(Debug, PartialEq, Eq)]
pub enum RegistryTestEvent {
    /// The test begins.
    Start,
    /// The probe ended with `outcome` after `elapsed_nanos`.
    Finished { outcome: Result<u64, RegistryError>, elapsed_nanos: u128 },
}

/// What a registry test answers.
#[derive(Debug, Clone, PartialEq, Eq)]
pub enum RegistryTestStep {
    /// Run this probe and hand back how it ended.
    Probe(RegistryPlan),
    /// The test is over.
    Done(DockerRegistryTestResult),
}

/// `step` is the answer of a registry test to `event`, where `accepted` says
/// whether the image reference is accepted.
///
/// * At the start, an image reference that is not accepted ends the test with
///   a failure before anything is sent; an accepted one gives the probe to
///   run: the registry's base address, repository and tag, and the budget.
/// * When the probe has ended, the test ends with [`registry_result`].
pub open spec fn registry_test_decision(
    registry: Seq<char>,
    image_name: Seq<char>,
    timeout_seconds: u64,
    accepted: bool,
    event: RegistryTestEvent,
    step: RegistryTestStep,
) -> bool {
    match event {
        RegistryTestEvent::Start => if accepted {
            &&& step matches RegistryTestStep::Probe(plan)
            &&& plan.registry_url@ == registry_url_text(registry)
            &&& plan.repository@ == image_parts(image_name).0
            &&& plan.tag@ == image_parts(image_name).1
            &&& plan.budget_nanos == budget_nanos(timeout_seconds)
        } else {
            &&& step matches RegistryTestStep::Done(result)
            &&& result@ == registry_failure(
                registry,
                image_name,
                "Invalid Docker image name format"@,
                0,
            )
        },
        RegistryTestEvent::Finished { outcome, elapsed_nanos } => {
            &&& step matches RegistryTestStep::Done(result)
            &&& result@ == registry_result(registry, image_name, outcome, elapsed_nanos as nat)
        },
    }
}

/// The result of a probe that measured nothing.
pub fn failed_registry_test(registry: &str, image_name: &str, message: String, elapsed_nanos: u128)
    -> (result: DockerRegistryTestResult)
    ensures
        result@ == registry_failure(registry@, image_name@, message@, elapsed_nanos as nat),
{
    DockerRegistryTestResult {
        registry: String::from_str(registry),
        image_name: String::from_str(image_name),
        success: false,
        download_speed_bps: 0,
        downloaded_bytes: 0,
        test_duration_nanos: elapsed_nanos,
        error_message: Some(message),
        session_id: 0,
    }
}

/// Begins the test of one registry, or ends it with how its probe ended;
/// `accepted` says whether the image reference is accepted.
pub fn registry_test_step(
    registry: &str,
    image_name: &str,
    timeout_seconds: u64,
    accepted: bool,
    event: RegistryTestEvent,
) -> (step: RegistryTestStep)
    ensures
        registry_test_decision(registry@, image_name@, timeout_seconds, accepted, event, step),
        step matches RegistryTestStep::Done(result) ==> result.success == (result.error_message
            is None),
{
    match event {
        RegistryTestEvent::Start => {
            if !accepted {
                return RegistryTestStep::Done(
                    failed_registry_test(
                        registry,
                        image_name,
                        String::from_str("Invalid Docker image name format"),
                        0,
                    ),
                );
            }
            let (repository, tag) = parse_image_name(image_name);
            RegistryTestStep::Probe(
                RegistryPlan {
                    registry_url: registry_base_url(registry),
                    repository,
                    tag,
                    budget_nanos: budget_of(timeout_seconds),
                },
            )
        },
        RegistryTestEvent::Finished { outcome, elapsed_nanos } => {
            match outcome {
                Ok(bytes) => {
                    if bytes > 0 {
                        RegistryTestStep::Done(
                            DockerRegistryTestResult {
                                registry: String::from_str(registry),
                                image_name: String::from_str(image_name),
                                success: true,
                                download_speed_bps: speed_bits_per_second(bytes, elapsed_nanos),
                                downloaded_bytes: bytes,
                                test_duration_nanos: elapsed_nanos,
                                error_message: None,
                                session_id: 0,
                            },
                        )
                    } else {
                        RegistryTestStep::Done(
                            failed_registry_test(
                                registry,
                                image_name,
                                String::from_str("No data downloaded"),
                                elapsed_nanos,
                            ),
                        )
                    }
                },
                Err(e) => RegistryTestStep::Done(
                    failed_registry_test(registry, image_name, e.message(), elapsed_nanos),
                ),
            }
        },
    }
}

/// Begins the test of one registry, or ends it with how its probe ended. The
/// image reference is judged as [`validate_docker_image_name`] does; the rest
/// is [`registry_test_step`].
pub fn test_docker_registry_download_speed(
    registry: &str,
    image_name: &str,
    timeout_seconds: u64,
    event: RegistryTestEvent,
) -> (step: RegistryTestStep)
    ensures
        registry_test_decision(
            registry@,
            image_name@,
            timeout_seconds,
            image_name_accepted(regex_match(IMAGE_NAME_PATTERN@, image_name@), image_name@),
            event,
            step,
        ),
        step matches RegistryTestStep::Done(result) ==> result.success == (result.error_message
            is None),
{
    let accepted = validate_docker_image_name(image_name);
    registry_test_step(registry, image_name, timeout_seconds, accepted, event)
}

} // verus!
