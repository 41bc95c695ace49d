//! Registry manifests: the documents, the requests that ask for them, and what
//! an answer means.
//!
//! The caller sends each [`HttpRequest`] and decodes the body; the functions
//! here build the request and judge the [`HttpReply`].

use crate::text::{decimal, decimal_text, join};
use std::collections::HashMap;
use vstd::prelude::*;
use vstd::string::*;

verus! {

/// Media type of a multi-platform manifest list.
pub const MANIFEST_LIST_MEDIA_TYPE: &'static str =
    "application/vnd.docker.distribution.manifest.list.v2+json";

/// What a request for a tag's manifest accepts, in order of preference.
pub const TAG_MANIFEST_ACCEPT: &'static str =
    "application/vnd.docker.distribution.manifest.list.v2+json,application/vnd.docker.distribution.manifest.v2+json,application/vnd.oci.image.index.v1+json,application/vnd.oci.image.manifest.v1+json";

/// What a request for one concrete manifest accepts.
pub const DIGEST_MANIFEST_ACCEPT: &'static str =
    "application/vnd.docker.distribution.manifest.v2+json";

/// The user agent of manifest and blob requests.
pub const REGISTRY_USER_AGENT: &'static str =
    "Mozilla/5.0 (Macintosh; Intel Mac OS X 10_15_7) AppleWebKit/537.36 (KHTML, like Gecko) Chrome/120.0.0.0 Safari/537.36";

/// Seconds after which a manifest or blob request is given up.
pub const REGISTRY_TIMEOUT_SECS: u64 = 30;

/// A layer under this declared size counts as too small to measure with.
pub const SMALL_LAYER_BYTES: u64 = 1_048_576;

/// A manifest list: the platform-specific manifests of one tag.
#[derive(Debug, Clone, PartialEq, Eq)]
pub struct ManifestList {
    pub schema_version: u32,
    pub media_type: String,
    pub manifests: Vec<Manifest>,
}

/// One entry of a manifest list.
#[derive(Debug, Clone, PartialEq, Eq)]
pub struct Manifest {
    pub digest: String,
    pub media_type: String,
    pub size: u64,
    pub platform: Platform,
    pub annotations: Option<HashMap<String, String>>,
}

/// The platform an entry of a manifest list is for.
#[derive(Debug, Clone, PartialEq, Eq)]
pub struct Platform {
    pub architecture: String,
    pub os: String,
    pub variant: Option<String>,
}

/// A concrete image manifest with its layers in order.
#[derive(Debug, Clone, PartialEq, Eq)]
pub struct DigestManifest {
    pub schema_version: u32,
    pub media_type: String,
    pub config: ConfigDescriptor,
    pub layers: Vec<LayerDescriptor>,
}

/// The configuration blob of an image.
#[derive(Debug, Clone, PartialEq, Eq)]
pub struct ConfigDescriptor {
    pub media_type: String,
    pub size: u64,
    pub digest: String,
}

/// One layer of an image: its digest and declared size.
#[derive(Debug, Clone, PartialEq, Eq)]
pub struct LayerDescriptor {
    pub media_type: String,
    pub size: u64,
    pub digest: String,
}

/// A GET request for the caller to send.
#[derive(Debug, Clone, PartialEq, Eq)]
pub struct HttpRequest {
    pub url: String,
    /// The `Accept` header, if one is to be set.
    pub accept: Option<String>,
    pub user_agent: String,
    pub timeout_secs: u64,
}

/// How a request ended.
#[derive(Debug, Clone, PartialEq, Eq)]
pub enum HttpReply<T> {
    /// No answer could be had or read.
    Failed { reason: String },
    /// The server answered. `body` is the decoded body, or `None` where it
    /// could not be decoded.
    Status { code: u16, body: Option<T> },
}

/// Why a fetch produced no document.
#[derive(Debug, Clone, PartialEq, Eq)]
pub enum FetchError {
    /// No answer could be had or read.
    Transport(String),
    /// The server answered with a status other than 200.
    Status { code: u16, url: String },
    /// The body was not the document asked for.
    Malformed,
}

impl FetchError {
    /// The text of this error.
    pub open spec fn text(self) -> Seq<char> {
        match self {
            FetchError::Transport(reason) => reason@,
            FetchError::Status { code, url } => "HTTP error "@ + decimal(code as nat) + ": "@
                + url@,
            FetchError::Malformed => "Malformed manifest document"@,
        }
    }

    /// The text of this error.
    pub fn message(&self) -> (m: String)
        ensures
            m@ == self.text(),
    {
        match self {
            FetchError::Transport(reason) => reason.clone(),
            FetchError::Status { code, url } => {
                let number = decimal_text(*code as u64);
                let mut m = join("HTTP error ", number.as_str());
                m.append(": ");
                m.append(url.as_str());
                m
            },
            FetchError::Malformed => String::from_str("Malformed manifest document"),
        }
    }
}

/// The address of the manifest `reference` (a tag or a digest) of `image_name`
/// at `registry_url`.
pub open spec fn manifest_url_text(
    registry_url: Seq<char>,
    image_name: Seq<char>,
    reference: Seq<char>,
) -> Seq<char> {
    registry_url + "/v2/"@ + image_name + "/manifests/"@ + reference
}

/// The address of the blob `digest` of `image_name` at `registry_url`.
pub open spec fn blob_url_text(
    registry_url: Seq<char>,
    image_name: Seq<char>,
    digest: Seq<char>,
) -> Seq<char> {
    registry_url + "/v2/"@ + image_name + "/blobs/"@ + digest
}

/// The address of the manifest `reference` of `image_name` at `registry_url`.
pub fn manifest_url(registry_url: &str, image_name: &str, reference: &str) -> (url: String)
    ensures
        url@ == manifest_url_text(registry_url@, image_name@, reference@),
{
    let mut url = join(registry_url, "/v2/");
    url.append(image_name);
    url.append("/manifests/");
    url.append(reference);
    url
}

/// The address of the blob `digest` of `image_name` at `registry_url`.
pub fn blob_url(registry_url: &str, image_name: &str, digest: &str) -> (url: String)
    ensures
        url@ == blob_url_text(registry_url@, image_name@, digest@),
{
    let mut url = join(registry_url, "/v2/");
    url.append(image_name);
    url.append("/blobs/");
    url.append(digest);
    url
}

/// `request` is the request for the manifest of `tag`: a GET for the
/// manifest's address that accepts manifest lists before single manifests,
/// under the registry user agent and time limit.
pub open spec fn is_tag_manifest_request(
    request: HttpRequest,
    registry_url: Seq<char>,
    image_name: Seq<char>,
    tag: Seq<char>,
) -> bool {
    &&& request.url@ == manifest_url_text(registry_url, image_name, tag)
    &&& request.accept matches Some(a) && a@ == TAG_MANIFEST_ACCEPT@
    &&& request.user_agent@ == REGISTRY_USER_AGENT@
    &&& request.timeout_secs == REGISTRY_TIMEOUT_SECS
}

/// `request` is the request for the concrete manifest `reference` (a digest,
/// or a tag standing in for one): a GET for the manifest's address that
/// accepts a single manifest only, under the registry user agent and time
/// limit.
pub open spec fn is_digest_manifest_request(
    request: HttpRequest,
    registry_url: Seq<char>,
    image_name: Seq<char>,
    reference: Seq<char>,
) -> bool {
    &&& request.url@ == manifest_url_text(registry_url, image_name, reference)
    &&& request.accept matches Some(a) && a@ == DIGEST_MANIFEST_ACCEPT@
    &&& request.user_agent@ == REGISTRY_USER_AGENT@
    &&& request.timeout_secs == REGISTRY_TIMEOUT_SECS
}

/// `request` is the request for the blob `digest`: a GET for the blob's
/// address without an `Accept` header, under the registry user agent and time
/// limit.
pub open spec fn is_layer_blob_request(
    request: HttpRequest,
    registry_url: Seq<char>,
    image_name: Seq<char>,
    digest: Seq<char>,
) -> bool {
    &&& request.url@ == blob_url_text(registry_url, image_name, digest)
    &&& request.accept is None
    &&& request.user_agent@ == REGISTRY_USER_AGENT@
    &&& request.timeout_secs == REGISTRY_TIMEOUT_SECS
}

/// The request for the manifest of `tag`: it accepts manifest lists and single
/// manifests.
pub fn tag_manifest_request(registry_url: &str, image_name: &str, tag: &str) -> (request:
    HttpRequest)
    ensures
        is_tag_manifest_request(request, registry_url@, image_name@, tag@),
{
    HttpRequest {
        url: manifest_url(registry_url, image_name, tag),
        accept: Some(String::from_str(TAG_MANIFEST_ACCEPT)),
        user_agent: String::from_str(REGISTRY_USER_AGENT),
        timeout_secs: REGISTRY_TIMEOUT_SECS,
    }
}

/// The request for the concrete manifest `digest` (or a tag standing in for
/// one): it accepts a single manifest only.
pub fn digest_manifest_request(registry_url: &str, image_name: &str, digest: &str) -> (request:
    HttpRequest)
    ensures
        is_digest_manifest_request(request, registry_url@, image_name@, digest@),
{
    HttpRequest {
        url: manifest_url(registry_url, image_name, digest),
        accept: Some(String::from_str(DIGEST_MANIFEST_ACCEPT)),
        user_agent: String::from_str(REGISTRY_USER_AGENT),
        timeout_secs: REGISTRY_TIMEOUT_SECS,
    }
}

/// The request for the blob `digest`.
pub fn layer_blob_request(registry_url: &str, image_name: &str, digest: &str) -> (request:
    HttpRequest)
    ensures
        is_layer_blob_request(request, registry_url@, image_name@, digest@),
{
    HttpRequest {
        url: blob_url(registry_url, image_name, digest),
        accept: None,
        user_agent: String::from_str(REGISTRY_USER_AGENT),
        timeout_secs: REGISTRY_TIMEOUT_SECS,
    }
}

/// `error` is the failure that the answer `reply` to a request for `url`
/// amounts to, if it is one: no answer, or a status other than 200.
pub open spec fn refused_as<T>(reply: HttpReply<T>, url: Seq<char>, error: FetchError) -> bool {
    match reply {
        HttpReply::Failed { reason } => error == FetchError::Transport(reason),
        HttpReply::Status { code, body } => code != 200 && (error matches FetchError::Status {
            code: c,
            url: u,
        } && c == code && u@ == url),
    }
}

/// The answer carries a document to look at: the status is 200.
pub open spec fn answered<T>(reply: HttpReply<T>) -> bool {
    reply matches HttpReply::Status { code, .. } && code == 200
}

/// The list that stands for an answer that is no manifest list: it has no
/// entries, which tells the caller to ask for the tag as a single manifest.
pub open spec fn is_empty_list(list: ManifestList) -> bool {
    &&& list.schema_version == 2
    &&& list.media_type@ == MANIFEST_LIST_MEDIA_TYPE@
    &&& list.manifests@.len() == 0
}

/// Judges the answer to [`tag_manifest_request`].
///
/// A 200 whose body decoded as a manifest list gives that list. A 200 with any
/// other body gives the empty list. Every other answer is an error.
pub fn fetch_tag_manifest(
    registry_url: &str,
    image_name: &str,
    tag: &str,
    reply: HttpReply<ManifestList>,
) -> (result: Result<ManifestList, FetchError>)
    ensures
        result is Ok == answered(reply),
        result matches Err(e) ==> refused_as(
            reply,
            manifest_url_text(registry_url@, image_name@, tag@),
            e,
        ),
        result matches Ok(list) ==> match reply->body {
            Some(decoded) => list == decoded,
            None => is_empty_list(list),
        },
{
    match reply {
        HttpReply::Failed { reason } => Err(FetchError::Transport(reason)),
        HttpReply::Status { code, body } => {
            if code != 200 {
                Err(FetchError::Status { code, url: manifest_url(registry_url, image_name, tag) })
            } else {
                match body {
                    Some(list) => Ok(list),
                    None => Ok(
                        ManifestList {
                            schema_version: 2,
                            media_type: String::from_str(MANIFEST_LIST_MEDIA_TYPE),
                            manifests: Vec::new(),
                        },
                    ),
                }
            }
        },
    }
}

/// Judges the answer to [`digest_manifest_request`].
///
/// A 200 whose body decoded as a manifest gives that manifest; a 200 with any
/// other body is `Malformed`. Every other answer is an error.
pub fn fetch_digest_manifest(
    registry_url: &str,
    image_name: &str,
    digest: &str,
    reply: HttpReply<DigestManifest>,
) -> (result: Result<DigestManifest, FetchError>)
    ensures
        result is Ok == (answered(reply) && reply->body is Some),
        result matches Ok(manifest) ==> reply->body == Some(manifest),
        result matches Err(e) ==> if answered(reply) {
            e == FetchError::Malformed
        } else {
            refused_as(reply, manifest_url_text(registry_url@, image_name@, digest@), e)
        },
{
    match reply {
        HttpReply::Failed { reason } => Err(FetchError::Transport(reason)),
        HttpReply::Status { code, body } => {
            if code != 200 {
                Err(
                    FetchError::Status {
                        code,
                        url: manifest_url(registry_url, image_name, digest),
                    },
                )
            } else {
                match body {
                    Some(manifest) => Ok(manifest),
                    None => Err(FetchError::Malformed),
                }
            }
        },
    }
}

/// Judges the answer to [`layer_blob_request`].
///
/// A 200 whose body was read gives the bytes; a 200 without them is
/// `Malformed`. Every other answer is an error.
pub fn fetch_layer_blob(
    registry_url: &str,
    image_name: &str,
    digest: &str,
    reply: HttpReply<Vec<u8>>,
) -> (result: Result<Vec<u8>, FetchError>)
    ensures
        result is Ok == (answered(reply) && reply->body is Some),
        result matches Ok(bytes) ==> reply->body == Some(bytes),
        result matches Err(e) ==> if answered(reply) {
            e == FetchError::Malformed
        } else {
            refused_as(reply, blob_url_text(registry_url@, image_name@, digest@), e)
        },
{
    match reply {
        HttpReply::Failed { reason } => Err(FetchError::Transport(reason)),
        HttpReply::Status { code, body } => {
            if code != 200 {
                Err(FetchError::Status { code, url: blob_url(registry_url, image_name, digest) })
            } else {
                match body {
                    Some(bytes) => Ok(bytes),
                    None => Err(FetchError::Malformed),
                }
            }
        },
    }
}

/// The declared sizes of `layers`, in order.
pub open spec fn layer_sizes(layers: Seq<LayerDescriptor>) -> Seq<u64> {
    Seq::new(layers.len(), |i: int| layers[i].size)
}

/// The first position at or after `from` whose size is above that of the first
/// layer; 0 where there is none.
pub open spec fn first_larger(sizes: Seq<u64>, from: int) -> int
    decreases sizes.len() - from,
{
    if from < 1 || from >= sizes.len() {
        0
    } else if sizes[from] > sizes[0] {
        from
    } else {
        first_larger(sizes, from + 1)
    }
}

/// The position of the layer to measure with: the first layer, unless it is
/// under [`SMALL_LAYER_BYTES`] and a later one is strictly larger; then the
/// first such later one.
pub open spec fn selected_layer(sizes: Seq<u64>) -> int {
    if sizes.len() > 0 && sizes[0] < SMALL_LAYER_BYTES {
        first_larger(sizes, 1)
    } else {
        0
    }
}

/// `first_larger` finds the first larger layer at or after `from`, and
/// answers 0 exactly when none is there.
pub proof fn lemma_first_larger(sizes: Seq<u64>, from: int)
    requires
        1 <= from,
    ensures
        ({
            let k = first_larger(sizes, from);
            &&& (k == 0 || from <= k < sizes.len())
            &&& k > 0 ==> sizes[k] > sizes[0]
            &&& forall|j: int|
                from <= j < (if k == 0 {
                    sizes.len() as int
                } else {
                    k
                }) ==> #[trigger] sizes[j] <= sizes[0]
        }),
    decreases sizes.len() - from,
{
    if from < sizes.len() && sizes[from] <= sizes[0] {
        lemma_first_larger(sizes, from + 1);
    }
}

/// What `selected_layer` selects, said directly: a position of the list; the
/// first layer whenever it is not small; otherwise a later layer only if it is
/// strictly larger than the first and no layer between them is, and the first
/// layer only if no later layer is strictly larger.
pub proof fn lemma_selected_layer(sizes: Seq<u64>)
    requires
        sizes.len() > 0,
    ensures
        ({
            let k = selected_layer(sizes);
            &&& 0 <= k < sizes.len()
            &&& sizes[0] >= SMALL_LAYER_BYTES ==> k == 0
            &&& k > 0 ==> sizes[k] > sizes[0] && forall|j: int|
                1 <= j < k ==> #[trigger] sizes[j] <= sizes[0]
            &&& k == 0 && sizes[0] < SMALL_LAYER_BYTES ==> forall|j: int|
                1 <= j < sizes.len() ==> #[trigger] sizes[j] <= sizes[0]
        }),
{
    lemma_first_larger(sizes, 1);
}

/// The position of the layer to measure with, or `None` for an image without
/// layers.
pub fn select_layer(layers: &Vec<LayerDescriptor>) -> (choice: Option<usize>)
    ensures
        choice is Some == (layers@.len() > 0),
        choice matches Some(k) ==> k == selected_layer(layer_sizes(layers@)) && k < layers@.len(),
{
    let n = layers.len();
    if n == 0 {
        return None;
    }
    let ghost sizes = layer_sizes(layers@);
    let first = layers[0].size;
    if first >= SMALL_LAYER_BYTES {
        return Some(0);
    }
    let mut i: usize = 1;
    while i < n
        invariant
            1 <= i <= n,
            n == layers@.len(),
            sizes == layer_sizes(layers@),
            sizes.len() == n,
            first == sizes[0],
            first < SMALL_LAYER_BYTES,
            first_larger(sizes, i as int) == first_larger(sizes, 1),
        decreases n - i,
    {
        assert(sizes[i as int] == layers@[i as int].size);
        if layers[i].size > first {
            return Some(i);
        }
        i += 1;
    }
    Some(0)
}

} // verus!
