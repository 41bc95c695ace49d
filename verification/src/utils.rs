//! Probe targets: turning what the user typed into an address to probe.

use crate::config::{list_result, read_list, yaml_list, ConfigError};
use crate::dns::{
    CustomDnsResolver, HttpProbe, IpAddress, HTTPS_PORT, REACHABILITY_TIMEOUT_SECS,
};
use crate::text::{join, strip_prefix, trim, trimmed, without_prefix};
use vstd::prelude::*;
use vstd::string::*;

verus! {

/// The user agent of [`check_url_with_dns`].
pub const UNLOCKER_USER_AGENT: &'static str = "Mozilla/5.0 (compatible; 403Unlocker)";

/// The key under which the list of candidate resolvers stands.
pub const DNS_SERVERS_KEY: &'static str = "dnsServers";

/// Where the list of candidate resolvers is published.
pub const DNS_CONFIG_URL: &'static str =
    "https://raw.githubusercontent.com/403unlocker/403Unlocker-cli/refs/heads/main/config/dns.yml";

/// The parts of a parsed address that a probe reads.
#[derive(Debug, Clone, PartialEq, Eq)]
pub struct ParsedUrl {
    /// The address in its normal form.
    pub href: String,
    /// The scheme, in lower case, without the `:`.
    pub scheme: String,
    /// The host, if the address has one.
    pub host: Option<String>,
}

/// What a [`ParsedUrl`] says.
pub struct UrlParts {
    pub href: Seq<char>,
    pub scheme: Seq<char>,
    pub host: Option<Seq<char>>,
}

impl View for ParsedUrl {
    type V = UrlParts;

    open spec fn view(&self) -> UrlParts {
        UrlParts {
            href: self.href@,
            scheme: self.scheme@,
            host: match self.host {
                Some(h) => Some(h@),
                None => None,
            },
        }
    }
}

/// What an optional [`ParsedUrl`] says.
pub open spec fn parts_of(parsed: Option<ParsedUrl>) -> Option<UrlParts> {
    match parsed {
        Some(u) => Some(u@),
        None => None,
    }
}

/// What the `url` crate makes of `input`: `None` where `Url::parse` refuses
/// it, else the serialization (`Url::as_str`), the scheme (`Url::scheme`) and
/// the host (`Url::host_str`) of the address it parsed.
pub uninterp spec fn url_parse(input: Seq<char>) -> Option<UrlParts>;

/// Parses `input` with `url::Url::parse` and copies out the serialization,
/// the scheme and the host of the result. The parse depends on `input` alone;
/// the contract gives its result a name and says nothing of what it is.
#[verifier::external_body]
pub(crate) fn parse_url(input: &str) -> (parsed: Option<ParsedUrl>)
    ensures
        parts_of(parsed) == url_parse(input@),
{
    match url::Url::parse(input) {
        Ok(u) => Some(
            ParsedUrl {
                href: u.as_str().to_string(),
                scheme: u.scheme().to_string(),
                host: u.host_str().map(str::to_string),
            },
        ),
        Err(_) => None,
    }
}

/// The address of `host` itself: `https://`, the host and `/`.
pub open spec fn host_url(host: Seq<char>) -> Seq<char> {
    "https://"@ + host + "/"@
}

/// The address of `host` itself.
pub fn host_url_text(host: &str) -> (url: String)
    ensures
        url@ == host_url(host@),
{
    let mut url = join("https://", host);
    url.append("/");
    url
}

/// The text that is parsed for `text`: `text` without a leading `http://` and
/// then without a leading `https://`, behind `https://`.
pub open spec fn https_candidate(text: Seq<char>) -> Seq<char> {
    "https://"@ + without_prefix(without_prefix(text, "http://"@), "https://"@)
}

/// The text that is parsed for `text`.
pub fn https_candidate_text(text: &str) -> (candidate: String)
    ensures
        candidate@ == https_candidate(text@),
{
    let no_http = strip_prefix(text, "http://");
    let bare = strip_prefix(no_http.as_str(), "https://");
    join("https://", bare.as_str())
}

/// The text that is parsed for a target: the candidate of the target without
/// white space around it.
pub open spec fn target_candidate(input: Seq<char>) -> Seq<char> {
    https_candidate(trimmed(input))
}

/// The probe target that a parsed address gives: the address of its host
/// alone, under `https`. Whatever else the address held (a path, a query, a
/// port) is not part of the target. No target where nothing parsed or the
/// address has no host.
pub open spec fn normalized_target(parsed: Option<UrlParts>) -> Option<UrlParts> {
    match parsed {
        Some(u) => match u.host {
            Some(h) => Some(UrlParts { href: host_url(h), scheme: "https"@, host: Some(h) }),
            None => None,
        },
        None => None,
    }
}

/// The probe target that the parsed address `parsed` gives.
pub fn normalize_target(parsed: Option<ParsedUrl>) -> (target: Option<ParsedUrl>)
    ensures
        parts_of(target) == normalized_target(parts_of(parsed)),
{
    match parsed {
        Some(u) => match u.host {
            Some(h) => Some(
                ParsedUrl {
                    href: host_url_text(h.as_str()),
                    scheme: String::from_str("https"),
                    host: Some(h),
                },
            ),
            None => None,
        },
        None => None,
    }
}

/// The probe target for what the user typed: `https://<host>/`, with the host
/// that the text gives once white space around it and a leading scheme are
/// taken away; `None` where the text gives no host.
pub fn ensure_https(input: &str) -> (target: Option<ParsedUrl>)
    ensures
        parts_of(target) == normalized_target(url_parse(target_candidate(input@))),
        target matches Some(u) ==> u.host is Some && u.href@ == host_url(u.host->0@),
{
    let bare = trim(input);
    let candidate = https_candidate_text(bare.as_str());
    normalize_target(parse_url(candidate.as_str()))
}

/// The request that asks whether the target at `url` can be reached, and the
/// resolver to pin it to; `None` where the resolver's address did not parse or
/// the address has no host. The request asks for `https://<host>/`; it goes
/// to port 443 of the address resolved for the host, may take ten seconds and
/// checks no certificate.
pub fn check_url_with_dns(url: &ParsedUrl, address: Option<IpAddress>) -> (plan: Option<
    (HttpProbe, CustomDnsResolver),
>)
    ensures
        plan is Some == (address is Some && url.host is Some),
        plan matches Some((probe, resolver)) ==> {
            &&& resolver == CustomDnsResolver::pinned_to(address->0)
            &&& probe.url@ == host_url(url.host->0@)
            &&& probe.host@ == url.host->0@
            &&& probe.port == HTTPS_PORT
            &&& probe.timeout_secs == REACHABILITY_TIMEOUT_SECS
            &&& probe.user_agent@ == UNLOCKER_USER_AGENT@
            &&& probe.accept_invalid_certs
        },
{
    let resolver = match CustomDnsResolver::new(address) {
        Some(r) => r,
        None => {
            return None;
        },
    };
    match &url.host {
        Some(h) => Some(
            (
                HttpProbe {
                    url: host_url_text(h.as_str()),
                    host: h.clone(),
                    port: HTTPS_PORT,
                    timeout_secs: REACHABILITY_TIMEOUT_SECS,
                    user_agent: String::from_str(UNLOCKER_USER_AGENT),
                    accept_invalid_certs: true,
                },
                resolver,
            ),
        ),
        None => None,
    }
}

/// The candidate resolvers in the document `content`: the strings of the
/// sequence under `dnsServers`, in order.
pub fn read_dns_file(content: &str) -> (result: Result<Vec<String>, ConfigError>)
    ensures
        list_result(yaml_list(content@, DNS_SERVERS_KEY@), DNS_SERVERS_KEY@, result),
{
    read_list(content, DNS_SERVERS_KEY)
}

} // verus!
