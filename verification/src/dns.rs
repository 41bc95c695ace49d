//! Probes through a pinned resolver: whether a target can be reached, and how
//! fast it can be fetched.
//!
//! Both probes are driven from outside. The caller resolves, connects and
//! reads, and reports what happened; the functions here say what to do next
//! and what the result is.

use crate::text::{decimal, decimal_text, join, option_text};
use crate::transfer::{
    advance, bits_per_second, budget_nanos, budget_of, millis, millis_of, remaining_budget,
    speed_bits_per_second, step, StatusPolicy, Transfer, TransferError, TransferEvent,
};
use crate::utils::{
    host_url, host_url_text, https_candidate, https_candidate_text, normalized_target, parse_url,
    parts_of, target_candidate, url_parse, ParsedUrl, UrlParts,
};
use vstd::prelude::*;
use vstd::string::*;

verus! {

/// The resolvers that are probed when the caller supplies no list.
pub const DNS_SERVERS: [&'static str; 26] = [
    "178.22.122.100",
    "185.51.200.2",
    "192.104.158.78",
    "194.104.158.48",
    "172.29.0.100",
    "172.29.2.100",
    "10.202.10.202",
    "10.202.10.102",
    "185.55.226.26",
    "185.55.225.25",
    "10.202.10.10",
    "10.202.10.11",
    "37.27.41.228",
    "87.107.52.11",
    "87.107.52.13",
    "5.202.100.100",
    "5.202.100.101",
    "94.103.125.157",
    "94.103.125.158",
    "8.8.8.8",
    "8.8.4.4",
    "1.1.1.1",
    "1.0.0.1",
    "9.9.9.9",
    "149.112.112.112",
    "149.112.112.112",
];

/// The port on which a resolver is asked.
pub const DNS_PORT: u16 = 53;

/// Seconds after which one query to a resolver is given up.
pub const DNS_QUERY_TIMEOUT_SECS: u64 = 5;

/// How often a query is tried.
pub const DNS_QUERY_ATTEMPTS: usize = 2;

/// Seconds after which the reachability request is given up.
pub const REACHABILITY_TIMEOUT_SECS: u64 = 10;

/// The port of an `https` address.
pub const HTTPS_PORT: u16 = 443;

/// The port of an `http` address.
pub const HTTP_PORT: u16 = 80;

/// The user agent of the reachability request.
pub const REACHABILITY_USER_AGENT: &'static str = "Mozilla/5.0 (compatible; Bargozin-DNS-Tester)";

/// How a reachability probe is classified.
#[derive(Debug, Clone, PartialEq, Eq)]
pub enum HttpStatus {
    /// The server answered with a status from 200 to 299.
    Success,
    /// The server answered 403.
    Forbidden403,
    /// The server answered with this other status.
    Other(u16),
    /// No answer: the text says why.
    Failed(String),
    /// The probe was not run.
    NotTested,
}

/// What an [`HttpStatus`] says.
pub enum HttpStatusView {
    Success,
    Forbidden403,
    Other(u16),
    Failed(Seq<char>),
    NotTested,
}

impl View for HttpStatus {
    type V = HttpStatusView;

    open spec fn view(&self) -> HttpStatusView {
        match self {
            HttpStatus::Success => HttpStatusView::Success,
            HttpStatus::Forbidden403 => HttpStatusView::Forbidden403,
            HttpStatus::Other(code) => HttpStatusView::Other(*code),
            HttpStatus::Failed(why) => HttpStatusView::Failed(why@),
            HttpStatus::NotTested => HttpStatusView::NotTested,
        }
    }
}

/// The result of a reachability probe through one resolver.
#[derive(Debug, Clone, PartialEq, Eq)]
pub struct DnsTestResult {
    pub dns_server: String,
    /// Whether the target is usable through this resolver.
    pub status: bool,
    /// Milliseconds on the probe's clock.
    pub response_time: Option<u64>,
    pub error_message: Option<String>,
    pub session_id: u64,
    pub http_status: HttpStatus,
    pub test_url: Option<String>,
}

/// What a [`DnsTestResult`] says.
pub struct DnsTestResultView {
    pub dns_server: Seq<char>,
    pub status: bool,
    pub response_time: Option<u64>,
    pub error_message: Option<Seq<char>>,
    pub session_id: u64,
    pub http_status: HttpStatusView,
    pub test_url: Option<Seq<char>>,
}

impl View for DnsTestResult {
    type V = DnsTestResultView;

    open spec fn view(&self) -> DnsTestResultView {
        DnsTestResultView {
            dns_server: self.dns_server@,
            status: self.status,
            response_time: self.response_time,
            error_message: option_text(self.error_message),
            session_id: self.session_id,
            http_status: self.http_status@,
            test_url: option_text(self.test_url),
        }
    }
}

/// An IP address as its bytes in network order.
#[derive(Debug, Clone, Copy, PartialEq, Eq)]
pub enum IpAddress {
    V4([u8; 4]),
    V6([u8; 16]),
}

/// A resolver pinned to one server: queries go to `address` only, over UDP to
/// `port`, each given up after `timeout_secs` and tried `attempts` times. The
/// system's own resolvers are never asked.
#[derive(Debug, Clone, Copy, PartialEq, Eq)]
pub struct CustomDnsResolver {
    pub address: IpAddress,
    pub port: u16,
    pub timeout_secs: u64,
    pub attempts: usize,
    /// Whether an authoritative "no such name" ends the query at once.
    pub trust_negative_responses: bool,
}

impl CustomDnsResolver {
    /// The resolver pinned to `address`.
    pub open spec fn pinned_to(address: IpAddress) -> CustomDnsResolver {
        CustomDnsResolver {
            address,
            port: DNS_PORT,
            timeout_secs: DNS_QUERY_TIMEOUT_SECS,
            attempts: DNS_QUERY_ATTEMPTS,
            trust_negative_responses: false,
        }
    }

    /// The resolver pinned to the server whose address parsed as `address`;
    /// none where the address did not parse.
    pub fn new(address: Option<IpAddress>) -> (resolver: Option<CustomDnsResolver>)
        ensures
            resolver == match address {
                Some(a) => Some(CustomDnsResolver::pinned_to(a)),
                None => None,
            },
    {
        match address {
            Some(a) => Some(
                CustomDnsResolver {
                    address: a,
                    port: DNS_PORT,
                    timeout_secs: DNS_QUERY_TIMEOUT_SECS,
                    attempts: DNS_QUERY_ATTEMPTS,
                    trust_negative_responses: false,
                },
            ),
            None => None,
        }
    }
}

/// The probe target for what the user typed: `https://<host>/`, with the host
/// that the text gives once white space around it and a leading scheme are
/// taken away; `None` where the text gives no host.
pub fn ensure_https_url(input: &str) -> (target: Option<ParsedUrl>)
    ensures
        parts_of(target) == normalized_target(url_parse(target_candidate(input@))),
        target matches Some(u) ==> u.host is Some && u.href@ == host_url(u.host->0@),
{
    crate::utils::ensure_https(input)
}

/// The address to show for a target whose candidate text `candidate` parsed
/// as `parsed`: `https://`, the host and `/` where it parsed with a host,
/// else the candidate itself.
pub open spec fn shown_form(parsed: Option<UrlParts>, candidate: Seq<char>) -> Seq<char> {
    match parsed {
        Some(u) => match u.host {
            Some(h) => host_url(h),
            None => candidate,
        },
        None => candidate,
    }
}

/// The address under which the target `domain` is shown.
pub open spec fn shown_url(domain: Seq<char>) -> Seq<char> {
    shown_form(url_parse(https_candidate(domain)), https_candidate(domain))
}

/// The address to show for a target whose candidate text parsed as `parsed`.
pub fn shown_url_from(parsed: Option<ParsedUrl>, candidate: String) -> (url: String)
    ensures
        url@ == shown_form(parts_of(parsed), candidate@),
{
    match parsed {
        Some(u) => match u.host {
            Some(h) => host_url_text(h.as_str()),
            None => candidate,
        },
        None => candidate,
    }
}

/// The address under which the target `domain` is shown.
pub fn ensure_https(domain: &str) -> (url: String)
    ensures
        url@ == shown_url(domain@),
{
    let candidate = https_candidate_text(domain);
    let parsed = parse_url(candidate.as_str());
    shown_url_from(parsed, candidate)
}

/// The class of the status `code`.
pub open spec fn status_class(code: u16) -> HttpStatusView {
    if 200 <= code <= 299 {
        HttpStatusView::Success
    } else if code == 403 {
        HttpStatusView::Forbidden403
    } else {
        HttpStatusView::Other(code)
    }
}

/// Only a status from 200 to 299 makes a target usable.
pub open spec fn is_usable(code: u16) -> bool {
    200 <= code <= 299
}

/// Classifies the status `code`.
pub fn classify_status(code: u16) -> (class: HttpStatus)
    ensures
        class@ == status_class(code),
{
    if code >= 200 && code <= 299 {
        HttpStatus::Success
    } else if code == 403 {
        HttpStatus::Forbidden403
    } else {
        HttpStatus::Other(code)
    }
}

/// The request that asks whether a target can be reached. It goes to the
/// address that was resolved for `host`, port `port`, with `host` as the
/// `Host` header; certificates are not checked.
#[derive(Debug, Clone, PartialEq, Eq)]
pub struct HttpProbe {
    pub url: String,
    pub host: String,
    pub port: u16,
    pub timeout_secs: u64,
    pub user_agent: String,
    pub accept_invalid_certs: bool,
}

/// What is handed to a reachability probe.
#[derive(Debug, Clone, PartialEq, Eq)]
pub enum ReachabilityEvent {
    /// The probe begins; `address` is the resolver's address where it parsed.
    Start { address: Option<IpAddress> },
    /// The resolver answered with an address for the host.
    Resolved,
    /// The resolver gave no address.
    ResolutionFailed,
    /// The server answered.
    Responded { code: u16, reason: String },
    /// The request did not get an answer.
    ConnectionFailed,
}

/// What a reachability probe answers.
#[derive(Debug, Clone, PartialEq, Eq)]
pub enum ReachabilityStep {
    /// Resolve `host` through `resolver`.
    Resolve { host: String, resolver: CustomDnsResolver },
    /// Send this request to the resolved address.
    Get(HttpProbe),
    /// The probe is over.
    Done(DnsTestResult),
}

/// The result of a probe that did not find the target usable.
pub open spec fn unreachable_result(
    test_url: Seq<char>,
    dns_server: Seq<char>,
    session_id: u64,
    elapsed_ms: u64,
    message: Seq<char>,
    class: HttpStatusView,
) -> DnsTestResultView {
    DnsTestResultView {
        dns_server,
        status: false,
        response_time: Some(elapsed_ms),
        error_message: Some(message),
        session_id,
        http_status: class,
        test_url: Some(test_url),
    }
}

/// The result of a probe that the server answered with `code` and `reason`.
pub open spec fn answered_result(
    test_url: Seq<char>,
    dns_server: Seq<char>,
    session_id: u64,
    elapsed_ms: u64,
    code: u16,
    reason: Seq<char>,
) -> DnsTestResultView {
    DnsTestResultView {
        dns_server,
        status: is_usable(code),
        response_time: Some(elapsed_ms),
        error_message: if is_usable(code) {
            None
        } else {
            Some("HTTP "@ + decimal(code as nat) + " - "@ + reason)
        },
        session_id,
        http_status: status_class(code),
        test_url: Some(test_url),
    }
}

/// The result for a target that gives no address to probe.
pub open spec fn invalid_domain_result(
    test_url: Seq<char>,
    dns_server: Seq<char>,
    session_id: u64,
    elapsed_ms: u64,
) -> DnsTestResultView {
    unreachable_result(
        test_url,
        dns_server,
        session_id,
        elapsed_ms,
        "Invalid domain format"@,
        HttpStatusView::Failed("Invalid domain"@),
    )
}

/// The result for a resolver whose address did not parse.
pub open spec fn invalid_resolver_result(
    test_url: Seq<char>,
    dns_server: Seq<char>,
    session_id: u64,
    elapsed_ms: u64,
) -> DnsTestResultView {
    unreachable_result(
        test_url,
        dns_server,
        session_id,
        elapsed_ms,
        "Invalid DNS server address"@,
        HttpStatusView::Failed("Invalid DNS server"@),
    )
}

/// The host of an address, if it parsed and has one.
pub open spec fn host_of(target: Option<UrlParts>) -> Option<Seq<char>> {
    match target {
        Some(u) => u.host,
        None => None,
    }
}

/// The request for the target at `url`, as [`HttpProbe`] describes it: it
/// asks for `https://<host>/` and for nothing else of `url`.
pub open spec fn is_probe_of(probe: HttpProbe, url: UrlParts) -> bool {
    &&& url.host is Some
    &&& probe.url@ == host_url(url.host->0)
    &&& probe.host@ == url.host->0
    &&& probe.port == HTTPS_PORT
    &&& probe.timeout_secs == REACHABILITY_TIMEOUT_SECS
    &&& probe.user_agent@ == REACHABILITY_USER_AGENT@
    &&& probe.accept_invalid_certs
}

/// `step` is the answer of a reachability probe to `event`, for a target
/// that parsed as `target` and is shown as `test_url`.
///
/// * At the start, a target that gives no address with a host, or a resolver
///   whose address did not parse, ends the probe with a failure before
///   anything is sent. Otherwise the host is to be resolved through the
///   resolver pinned to that address.
/// * Once resolved, the request is to be sent: the target's address, port
///   443, ten seconds, certificates unchecked.
/// * A failed resolution, a failed request and an answer each end the probe:
///   only a status from 200 to 299 is a success.
pub open spec fn reachability_decision(
    target: Option<UrlParts>,
    test_url: Seq<char>,
    dns_server: Seq<char>,
    session_id: u64,
    event: ReachabilityEvent,
    elapsed_ms: u64,
    step: ReachabilityStep,
) -> bool {
    match event {
        ReachabilityEvent::Start { address } => match host_of(target) {
            None => {
                &&& step matches ReachabilityStep::Done(result)
                &&& result@ == invalid_domain_result(test_url, dns_server, session_id, elapsed_ms)
            },
            Some(h) => match address {
                None => {
                    &&& step matches ReachabilityStep::Done(result)
                    &&& result@ == invalid_resolver_result(
                        test_url,
                        dns_server,
                        session_id,
                        elapsed_ms,
                    )
                },
                Some(a) => {
                    &&& step matches ReachabilityStep::Resolve { host, resolver }
                    &&& host@ == h
                    &&& resolver == CustomDnsResolver::pinned_to(a)
                },
            },
        },
        ReachabilityEvent::Resolved => match host_of(target) {
            None => {
                &&& step matches ReachabilityStep::Done(result)
                &&& result@ == invalid_domain_result(test_url, dns_server, session_id, elapsed_ms)
            },
            Some(h) => {
                &&& step matches ReachabilityStep::Get(probe)
                &&& is_probe_of(probe, target->0)
            },
        },
        ReachabilityEvent::ResolutionFailed => {
            &&& step matches ReachabilityStep::Done(result)
            &&& result@ == unreachable_result(
                test_url,
                dns_server,
                session_id,
                elapsed_ms,
                "DNS resolution failed"@,
                HttpStatusView::Failed("Resolution failed"@),
            )
        },
        ReachabilityEvent::ConnectionFailed => {
            &&& step matches ReachabilityStep::Done(result)
            &&& result@ == unreachable_result(
                test_url,
                dns_server,
                session_id,
                elapsed_ms,
                "HTTP request failed"@,
                HttpStatusView::Failed("Connection failed"@),
            )
        },
        ReachabilityEvent::Responded { code, reason } => {
            &&& step matches ReachabilityStep::Done(result)
            &&& result@ == answered_result(
                test_url,
                dns_server,
                session_id,
                elapsed_ms,
                code,
                reason@,
            )
        },
    }
}

/// The result of a probe that did not find the target usable.
pub fn failed_dns_test(
    test_url: String,
    dns_server: &str,
    session_id: u64,
    elapsed_ms: u64,
    message: &str,
    why: &str,
) -> (result: DnsTestResult)
    ensures
        result@ == unreachable_result(
            test_url@,
            dns_server@,
            session_id,
            elapsed_ms,
            message@,
            HttpStatusView::Failed(why@),
        ),
{
    DnsTestResult {
        dns_server: String::from_str(dns_server),
        status: false,
        response_time: Some(elapsed_ms),
        error_message: Some(String::from_str(message)),
        session_id,
        http_status: HttpStatus::Failed(String::from_str(why)),
        test_url: Some(test_url),
    }
}

/// The request that asks whether the target at `url` can be reached; `None`
/// where the address has no host.
pub fn reachability_request(url: &ParsedUrl) -> (request: Option<HttpProbe>)
    ensures
        request is Some == url.host is Some,
        request matches Some(probe) ==> is_probe_of(probe, url@),
{
    match &url.host {
        Some(h) => Some(
            HttpProbe {
                url: host_url_text(h.as_str()),
                host: h.clone(),
                port: HTTPS_PORT,
                timeout_secs: REACHABILITY_TIMEOUT_SECS,
                user_agent: String::from_str(REACHABILITY_USER_AGENT),
                accept_invalid_certs: true,
            },
        ),
        None => None,
    }
}

/// The request that asks whether the target at `url` can be reached, and the
/// resolver to pin it to; `None` where the resolver's address did not parse or
/// the address has no host.
pub fn check_url_with_custom_dns(url: &ParsedUrl, address: Option<IpAddress>) -> (plan: Option<
    (HttpProbe, CustomDnsResolver),
>)
    ensures
        plan is Some == (address is Some && url.host is Some),
        plan matches Some((probe, resolver)) ==> resolver == CustomDnsResolver::pinned_to(
            address->0,
        ) && is_probe_of(probe, url@),
{
    let resolver = match CustomDnsResolver::new(address) {
        Some(r) => r,
        None => {
            return None;
        },
    };
    match reachability_request(url) {
        Some(probe) => Some((probe, resolver)),
        None => None,
    }
}

/// Begins a reachability probe, or moves it on by what happened, for a target
/// that parsed as `target` and is shown as `test_url`.
///
/// A resolver whose address did not parse ends the probe at its start, with a
/// result that is no success: nothing is resolved or sent for it. Every
/// result is either a success without a message or a failure with one.
pub fn reachability_step(
    target: Option<ParsedUrl>,
    test_url: String,
    dns_server: &str,
    session_id: u64,
    event: ReachabilityEvent,
    elapsed_ms: u64,
) -> (step: ReachabilityStep)
    ensures
        reachability_decision(
            parts_of(target),
            test_url@,
            dns_server@,
            session_id,
            event,
            elapsed_ms,
            step,
        ),
        event matches ReachabilityEvent::Start { address: None } ==> step matches ReachabilityStep::Done(
            result,
        ) && !result.status,
        step matches ReachabilityStep::Done(result) ==> result.status == (result.error_message
            is None),
        step matches ReachabilityStep::Get(probe) ==> probe.url@ == host_url(probe.host@),
{
    match event {
        ReachabilityEvent::Start { address } => {
            let host = match target {
                Some(u) => u.host,
                None => None,
            };
            match host {
                None => ReachabilityStep::Done(
                    failed_dns_test(
                        test_url,
                        dns_server,
                        session_id,
                        elapsed_ms,
                        "Invalid domain format",
                        "Invalid domain",
                    ),
                ),
                Some(h) => match CustomDnsResolver::new(address) {
                    None => ReachabilityStep::Done(
                        failed_dns_test(
                            test_url,
                            dns_server,
                            session_id,
                            elapsed_ms,
                            "Invalid DNS server address",
                            "Invalid DNS server",
                        ),
                    ),
                    Some(resolver) => ReachabilityStep::Resolve { host: h, resolver },
                },
            }
        },
        ReachabilityEvent::Resolved => {
            let request = match &target {
                Some(u) => reachability_request(u),
                None => None,
            };
            match request {
                Some(probe) => ReachabilityStep::Get(probe),
                None => ReachabilityStep::Done(
                    failed_dns_test(
                        test_url,
                        dns_server,
                        session_id,
                        elapsed_ms,
                        "Invalid domain format",
                        "Invalid domain",
                    ),
                ),
            }
        },
        ReachabilityEvent::ResolutionFailed => ReachabilityStep::Done(
            failed_dns_test(
                test_url,
                dns_server,
                session_id,
                elapsed_ms,
                "DNS resolution failed",
                "Resolution failed",
            ),
        ),
        ReachabilityEvent::ConnectionFailed => ReachabilityStep::Done(
            failed_dns_test(
                test_url,
                dns_server,
                session_id,
                elapsed_ms,
                "HTTP request failed",
                "Connection failed",
            ),
        ),
        ReachabilityEvent::Responded { code, reason } => {
            let usable = code >= 200 && code <= 299;
            let error_message = if usable {
                None
            } else {
                let number = decimal_text(code as u64);
                let mut m = join("HTTP ", number.as_str());
                m.append(" - ");
                m.append(reason.as_str());
                Some(m)
            };
            ReachabilityStep::Done(
                DnsTestResult {
                    dns_server: String::from_str(dns_server),
                    status: usable,
                    response_time: Some(elapsed_ms),
                    error_message,
                    session_id,
                    http_status: classify_status(code),
                    test_url: Some(test_url),
                },
            )
        },
    }
}

/// Begins the reachability probe of `domain` through `dns_server`, or moves
/// it on by what happened; `elapsed_ms` is the time on the probe's clock. The
/// target is parsed as [`ensure_https_url`] does and shown as
/// [`ensure_https`] does; the rest is [`reachability_step`].
pub fn test_single_dns_server(
    domain: &str,
    dns_server: &str,
    session_id: u64,
    event: ReachabilityEvent,
    elapsed_ms: u64,
) -> (step: ReachabilityStep)
    ensures
        reachability_decision(
            normalized_target(url_parse(target_candidate(domain@))),
            shown_url(domain@),
            dns_server@,
            session_id,
            event,
            elapsed_ms,
            step,
        ),
        event matches ReachabilityEvent::Start { address: None } ==> step matches ReachabilityStep::Done(
            result,
        ) && !result.status,
        step matches ReachabilityStep::Done(result) ==> result.status == (result.error_message
            is None),
        step matches ReachabilityStep::Get(probe) ==> probe.url@ == host_url(probe.host@),
{
    let target = ensure_https_url(domain);
    let test_url = ensure_https(domain);
    reachability_step(target, test_url, dns_server, session_id, event, elapsed_ms)
}

/// A measured download.
#[derive(Debug, Clone, Copy, PartialEq, Eq)]
pub struct SpeedMeasurement {
    pub downloaded_bytes: u64,
    /// Milliseconds that the resolution took.
    pub resolution_time_ms: u64,
}

/// Why a speed probe measured nothing.
#[derive(Debug, Clone, PartialEq, Eq)]
pub enum SpeedFailure {
    /// The target is no address.
    InvalidUrl,
    /// The target's address has no host.
    InvalidHost,
    /// The target's scheme is neither `http` nor `https`.
    UnsupportedScheme,
    /// The resolver's address did not parse.
    InvalidResolver,
    /// The resolution took the whole budget of `seconds`; it was given up
    /// after `elapsed_ms`.
    ResolutionTimedOut { seconds: u64, elapsed_ms: u64 },
    /// The resolver gave no address.
    ResolutionFailed(String),
    /// The budget was used up before the transfer could start.
    TimedOutBeforeTransfer,
    /// The request did not get an answer.
    Request(String),
    /// The server answered with a status that does not let the body be read.
    Status(u16),
    /// Reading the body failed before any byte arrived.
    Stream(String),
}

impl SpeedFailure {
    /// The text of this failure.
    pub open spec fn text(self) -> Seq<char> {
        match self {
            SpeedFailure::InvalidUrl => "Invalid URL"@,
            SpeedFailure::InvalidHost => "Invalid host"@,
            SpeedFailure::UnsupportedScheme => "Unsupported scheme"@,
            SpeedFailure::InvalidResolver => "Invalid DNS server address"@,
            SpeedFailure::ResolutionTimedOut { seconds, elapsed_ms } =>
                "DNS resolution timed out after "@ + decimal(seconds as nat) + " seconds"@,
            SpeedFailure::ResolutionFailed(why) => "DNS resolution failed: "@ + why@,
            SpeedFailure::TimedOutBeforeTransfer => "Operation timed out before HTTP request"@,
            SpeedFailure::Request(why) => "HTTP request failed: "@ + why@,
            SpeedFailure::Status(code) => "HTTP error: "@ + decimal(code as nat),
            SpeedFailure::Stream(why) => "Stream error: "@ + why@,
        }
    }

    /// The time that the resolution took, where the failure reports it.
    pub open spec fn resolution_time(self) -> Option<u64> {
        match self {
            SpeedFailure::ResolutionTimedOut { seconds, elapsed_ms } => Some(elapsed_ms),
            _ => None,
        }
    }

    /// The text of this failure.
    pub fn message(&self) -> (m: String)
        ensures
            m@ == self.text(),
    {
        match self {
            SpeedFailure::InvalidUrl => String::from_str("Invalid URL"),
            SpeedFailure::InvalidHost => String::from_str("Invalid host"),
            SpeedFailure::UnsupportedScheme => String::from_str("Unsupported scheme"),
            SpeedFailure::InvalidResolver => String::from_str("Invalid DNS server address"),
            SpeedFailure::ResolutionTimedOut { seconds, elapsed_ms } => {
                let number = decimal_text(*seconds);
                let mut m = join("DNS resolution timed out after ", number.as_str());
                m.append(" seconds");
                m
            },
            SpeedFailure::ResolutionFailed(why) => join("DNS resolution failed: ", why.as_str()),
            SpeedFailure::TimedOutBeforeTransfer => String::from_str(
                "Operation timed out before HTTP request",
            ),
            SpeedFailure::Request(why) => join("HTTP request failed: ", why.as_str()),
            SpeedFailure::Status(code) => {
                let number = decimal_text(*code as u64);
                join("HTTP error: ", number.as_str())
            },
            SpeedFailure::Stream(why) => join("Stream error: ", why.as_str()),
        }
    }
}

/// Where a speed probe stands.
#[derive(Debug, PartialEq, Eq)]
pub enum SpeedProbe {
    /// Nothing has happened yet.
    New,
    /// `host` is being resolved through `resolver`.
    Resolving { host: String, port: u16, resolver: CustomDnsResolver },
    /// The body is being fetched from the address resolved for `host`. The
    /// request may take `timeout_nanos`: what was left of the budget when the
    /// resolution was done.
    Fetching {
        host: String,
        port: u16,
        resolution_time_ms: u64,
        timeout_nanos: u128,
        transfer: Transfer,
    },
    /// The probe is over.
    Done(Result<SpeedMeasurement, SpeedFailure>),
}

/// What happened to a speed probe.
#[derive(Debug, Clone, PartialEq, Eq)]
pub enum SpeedEvent {
    /// The probe begins; `address` is the resolver's address where it parsed.
    Start { address: Option<IpAddress> },
    /// The resolver answered with an address for the host.
    Resolved,
    /// The resolver gave no address.
    ResolutionFailed { reason: String },
    /// The resolution was given up when the budget was used up.
    ResolutionTimedOut,
    /// Something happened to the download.
    Transfer(TransferEvent),
}

/// The port for `scheme`: 443 for `https`, 80 for `http`, none for any other.
pub open spec fn scheme_port(scheme: Seq<char>) -> Option<u16> {
    if scheme == "https"@ {
        Some(HTTPS_PORT)
    } else if scheme == "http"@ {
        Some(HTTP_PORT)
    } else {
        None
    }
}

/// The port for `scheme`.
pub fn port_for_scheme(scheme: &str) -> (port: Option<u16>)
    ensures
        port == scheme_port(scheme@),
{
    let https = String::from_str("https");
    let http = String::from_str("http");
    let given = String::from_str(scheme);
    if given == https {
        Some(HTTPS_PORT)
    } else if given == http {
        Some(HTTP_PORT)
    } else {
        None
    }
}

/// What stands in the way of probing a target that parsed as `target`
/// through a resolver whose address parsed as `address`, if anything does.
/// The target is looked at first: it must be an address, with a host, under
/// `http` or `https`.
pub open spec fn speed_input_error(target: Option<UrlParts>, address: Option<IpAddress>) -> Option<
    SpeedFailure,
> {
    match target {
        None => Some(SpeedFailure::InvalidUrl),
        Some(u) => if u.host is None {
            Some(SpeedFailure::InvalidHost)
        } else if scheme_port(u.scheme) is None {
            Some(SpeedFailure::UnsupportedScheme)
        } else if address is None {
            Some(SpeedFailure::InvalidResolver)
        } else {
            None
        },
    }
}

/// What the download `moved` means for the probe: a finished one ends the
/// probe with its measurement, a failed one with its failure, an open one
/// goes on.
pub open spec fn after_fetch(
    host: String,
    port: u16,
    resolution_time_ms: u64,
    timeout_nanos: u128,
    moved: Transfer,
) -> SpeedProbe {
    match moved {
        Transfer::Finished { bytes } => SpeedProbe::Done(
            Ok(SpeedMeasurement { downloaded_bytes: bytes, resolution_time_ms }),
        ),
        Transfer::Failed(TransferError::Connect(why)) => SpeedProbe::Done(
            Err(SpeedFailure::Request(why)),
        ),
        Transfer::Failed(TransferError::Status(code)) => SpeedProbe::Done(
            Err(SpeedFailure::Status(code)),
        ),
        Transfer::Failed(TransferError::Read(why)) => SpeedProbe::Done(
            Err(SpeedFailure::Stream(why)),
        ),
        _ => SpeedProbe::Fetching { host, port, resolution_time_ms, timeout_nanos, transfer: moved },
    }
}

/// `probe` is the speed probe of a target that parsed as `target`, as it
/// starts: over where an input error stands in the way, else resolving the
/// target's host through the resolver pinned to `address`.
pub open spec fn speed_start(
    target: Option<UrlParts>,
    address: Option<IpAddress>,
    probe: SpeedProbe,
) -> bool {
    match speed_input_error(target, address) {
        Some(failure) => probe == SpeedProbe::Done(Err(failure)),
        None => {
            &&& probe matches SpeedProbe::Resolving { host, port, resolver }
            &&& Some(host@) == target->0.host
            &&& Some(port) == scheme_port(target->0.scheme)
            &&& resolver == CustomDnsResolver::pinned_to(address->0)
        },
    }
}

/// What a speed probe that has started becomes on `event`, seen at `elapsed`
/// nanoseconds on the probe's clock, under a budget of `timeout_seconds`.
///
/// * While resolving: a failed or timed-out resolution ends the probe. A
///   resolution that is done starts the transfer with what is left of the
///   budget, or ends the probe where nothing is left.
/// * While fetching, a transfer event moves the download ([`advance`], any
///   status accepted) and its outcome decides ([`after_fetch`]).
/// * Any other event, and any event once the probe is over, changes nothing.
pub open spec fn speed_next(
    timeout_seconds: u64,
    state: SpeedProbe,
    event: SpeedEvent,
    elapsed: nat,
) -> SpeedProbe {
    let budget = budget_nanos(timeout_seconds);
    match (state, event) {
        (SpeedProbe::Resolving { host, port, resolver }, SpeedEvent::Resolved) => if elapsed
            >= budget {
            SpeedProbe::Done(Err(SpeedFailure::TimedOutBeforeTransfer))
        } else {
            SpeedProbe::Fetching {
                host,
                port,
                resolution_time_ms: millis(elapsed) as u64,
                timeout_nanos: (budget - elapsed) as u128,
                transfer: Transfer::Connecting,
            }
        },
        (
            SpeedProbe::Resolving { host, port, resolver },
            SpeedEvent::ResolutionFailed { reason },
        ) => SpeedProbe::Done(Err(SpeedFailure::ResolutionFailed(reason))),
        (
            SpeedProbe::Resolving { host, port, resolver },
            SpeedEvent::ResolutionTimedOut,
        ) => SpeedProbe::Done(
            Err(
                SpeedFailure::ResolutionTimedOut {
                    seconds: timeout_seconds,
                    elapsed_ms: millis(elapsed) as u64,
                },
            ),
        ),
        (
            SpeedProbe::Fetching { host, port, resolution_time_ms, timeout_nanos, transfer },
            SpeedEvent::Transfer(e),
        ) => after_fetch(
            host,
            port,
            resolution_time_ms,
            timeout_nanos,
            advance(transfer, e, elapsed, budget, StatusPolicy::Any),
        ),
        _ => state,
    }
}

/// `next` is what the speed probe `state` becomes on `event`, seen at
/// `elapsed` nanoseconds on the probe's clock, for a target that parsed as
/// `target`, under a budget of `timeout_seconds`: a new probe starts
/// ([`speed_start`]), a started one goes on ([`speed_next`]).
pub open spec fn speed_step(
    target: Option<UrlParts>,
    timeout_seconds: u64,
    state: SpeedProbe,
    event: SpeedEvent,
    elapsed: nat,
    next: SpeedProbe,
) -> bool {
    match (state, event) {
        (SpeedProbe::New, SpeedEvent::Start { address }) => speed_start(target, address, next),
        _ => next == speed_next(timeout_seconds, state, event, elapsed),
    }
}

/// Starts the speed probe of a target that parsed as `target`.
///
/// A resolver whose address did not parse ends the probe here: nothing is
/// resolved or sent for it.
pub fn start_speed_probe(target: Option<ParsedUrl>, address: Option<IpAddress>) -> (probe:
    SpeedProbe)
    ensures
        speed_start(parts_of(target), address, probe),
        address is None ==> probe matches SpeedProbe::Done(Err(_)),
{
    let parsed = match target {
        Some(u) => u,
        None => {
            return SpeedProbe::Done(Err(SpeedFailure::InvalidUrl));
        },
    };
    let host = match parsed.host {
        Some(h) => h,
        None => {
            return SpeedProbe::Done(Err(SpeedFailure::InvalidHost));
        },
    };
    let port = match port_for_scheme(parsed.scheme.as_str()) {
        Some(p) => p,
        None => {
            return SpeedProbe::Done(Err(SpeedFailure::UnsupportedScheme));
        },
    };
    match CustomDnsResolver::new(address) {
        Some(resolver) => SpeedProbe::Resolving { host, port, resolver },
        None => SpeedProbe::Done(Err(SpeedFailure::InvalidResolver)),
    }
}

/// Moves a speed probe on by one event, seen at `elapsed_nanos` on the
/// probe's clock, for a target that parsed as `target`.
pub fn speed_probe_step(
    target: Option<ParsedUrl>,
    timeout_seconds: u64,
    state: SpeedProbe,
    event: SpeedEvent,
    elapsed_nanos: u128,
) -> (next: SpeedProbe)
    ensures
        speed_step(parts_of(target), timeout_seconds, state, event, elapsed_nanos as nat, next),
        (state is New && event matches SpeedEvent::Start { address: None }) ==> (next matches SpeedProbe::Done(
            Err(_),
        )),
{
    let budget = budget_of(timeout_seconds);
    match state {
        SpeedProbe::New => match event {
            SpeedEvent::Start { address } => start_speed_probe(target, address),
            _ => SpeedProbe::New,
        },
        SpeedProbe::Resolving { host, port, resolver } => match event {
            SpeedEvent::Resolved => match remaining_budget(budget, elapsed_nanos) {
                Some(left) => SpeedProbe::Fetching {
                    host,
                    port,
                    resolution_time_ms: millis_of(elapsed_nanos),
                    timeout_nanos: left,
                    transfer: Transfer::Connecting,
                },
                None => SpeedProbe::Done(Err(SpeedFailure::TimedOutBeforeTransfer)),
            },
            SpeedEvent::ResolutionFailed { reason } => SpeedProbe::Done(
                Err(SpeedFailure::ResolutionFailed(reason)),
            ),
            SpeedEvent::ResolutionTimedOut => SpeedProbe::Done(
                Err(
                    SpeedFailure::ResolutionTimedOut {
                        seconds: timeout_seconds,
                        elapsed_ms: millis_of(elapsed_nanos),
                    },
                ),
            ),
            _ => SpeedProbe::Resolving { host, port, resolver },
        },
        SpeedProbe::Fetching { host, port, resolution_time_ms, timeout_nanos, transfer } => {
            match event {
                SpeedEvent::Transfer(e) => {
                    let moved = step(transfer, e, elapsed_nanos, budget, StatusPolicy::Any);
                    match moved {
                        Transfer::Finished { bytes } => SpeedProbe::Done(
                            Ok(SpeedMeasurement { downloaded_bytes: bytes, resolution_time_ms }),
                        ),
                        Transfer::Failed(TransferError::Connect(why)) => SpeedProbe::Done(
                            Err(SpeedFailure::Request(why)),
                        ),
                        Transfer::Failed(TransferError::Status(code)) => SpeedProbe::Done(
                            Err(SpeedFailure::Status(code)),
                        ),
                        Transfer::Failed(TransferError::Read(why)) => SpeedProbe::Done(
                            Err(SpeedFailure::Stream(why)),
                        ),
                        Transfer::Connecting => SpeedProbe::Fetching {
                            host,
                            port,
                            resolution_time_ms,
                            timeout_nanos,
                            transfer: Transfer::Connecting,
                        },
                        Transfer::Reading { bytes } => SpeedProbe::Fetching {
                            host,
                            port,
                            resolution_time_ms,
                            timeout_nanos,
                            transfer: Transfer::Reading { bytes },
                        },
                    }
                },
                _ => SpeedProbe::Fetching {
                    host,
                    port,
                    resolution_time_ms,
                    timeout_nanos,
                    transfer,
                },
            }
        },
        SpeedProbe::Done(outcome) => SpeedProbe::Done(outcome),
    }
}

/// Moves the speed probe of `url` on by one event, seen at `elapsed_nanos` on
/// the probe's clock. The target is parsed as it stands; the rest is
/// [`speed_probe_step`].
pub fn download_with_custom_dns(
    url: &str,
    timeout_seconds: u64,
    state: SpeedProbe,
    event: SpeedEvent,
    elapsed_nanos: u128,
) -> (next: SpeedProbe)
    ensures
        speed_step(url_parse(url@), timeout_seconds, state, event, elapsed_nanos as nat, next),
        (state is New && event matches SpeedEvent::Start { address: None }) ==> (next matches SpeedProbe::Done(
            Err(_),
        )),
{
    let target = parse_url(url);
    speed_probe_step(target, timeout_seconds, state, event, elapsed_nanos)
}

/// What the caller is to do for a speed probe.
#[derive(Debug, Clone, PartialEq, Eq)]
pub enum SpeedAction {
    /// Report the start, with the resolver's address where it parses.
    Begin,
    /// Resolve `host` through `resolver`, for at most `timeout_nanos`.
    Resolve { host: String, resolver: CustomDnsResolver, timeout_nanos: u128 },
    /// Send a GET for the target to the resolved address, port `port`, with
    /// `host` as the `Host` header, for at most `timeout_nanos`; certificates
    /// are not checked.
    Connect { host: String, port: u16, timeout_nanos: u128 },
    /// Read the next piece of the body and report it.
    Read,
    /// Nothing: the probe is over.
    Stop,
}

/// `action` is what the speed probe `state` asks of the caller.
pub open spec fn speed_asks(timeout_seconds: u64, state: SpeedProbe, action: SpeedAction) -> bool {
    match state {
        SpeedProbe::New => action is Begin,
        SpeedProbe::Resolving { host, port, resolver } => {
            &&& action matches SpeedAction::Resolve { host: h, resolver: r, timeout_nanos }
            &&& h@ == host@
            &&& r == resolver
            &&& timeout_nanos == budget_nanos(timeout_seconds)
        },
        SpeedProbe::Fetching { host, port, resolution_time_ms, timeout_nanos, transfer } => match transfer {
            Transfer::Connecting => {
                &&& action matches SpeedAction::Connect { host: h, port: p, timeout_nanos: t }
                &&& h@ == host@
                &&& p == port
                &&& t == timeout_nanos
            },
            Transfer::Reading { .. } => action is Read,
            _ => action is Stop,
        },
        SpeedProbe::Done(_) => action is Stop,
    }
}

/// What the speed probe `state` asks of the caller.
pub fn speed_action(timeout_seconds: u64, state: &SpeedProbe) -> (action: SpeedAction)
    ensures
        speed_asks(timeout_seconds, *state, action),
{
    match state {
        SpeedProbe::New => SpeedAction::Begin,
        SpeedProbe::Resolving { host, port, resolver } => SpeedAction::Resolve {
            host: host.clone(),
            resolver: *resolver,
            timeout_nanos: budget_of(timeout_seconds),
        },
        SpeedProbe::Fetching { host, port, resolution_time_ms, timeout_nanos, transfer } => {
            match transfer {
                Transfer::Connecting => SpeedAction::Connect {
                    host: host.clone(),
                    port: *port,
                    timeout_nanos: *timeout_nanos,
                },
                Transfer::Reading { .. } => SpeedAction::Read,
                _ => SpeedAction::Stop,
            }
        },
        SpeedProbe::Done(_) => SpeedAction::Stop,
    }
}

/// The result of a speed probe through one resolver.
#[derive(Debug, Clone, PartialEq, Eq)]
pub struct DownloadSpeedResult {
    pub dns_server: String,
    pub url: String,
    pub success: bool,
    /// Throughput in bits per second, rounded down.
    pub download_speed_bps: u128,
    pub downloaded_bytes: u64,
    /// Time on the probe's clock, in nanoseconds.
    pub test_duration_nanos: u128,
    pub error_message: Option<String>,
    pub resolution_time_ms: Option<u64>,
    pub session_id: u64,
}

/// What a [`DownloadSpeedResult`] says.
pub struct SpeedResultView {
    pub dns_server: Seq<char>,
    pub url: Seq<char>,
    pub success: bool,
    pub download_speed_bps: nat,
    pub downloaded_bytes: nat,
    pub test_duration_nanos: nat,
    pub error_message: Option<Seq<char>>,
    pub resolution_time_ms: Option<u64>,
    pub session_id: u64,
}

impl View for DownloadSpeedResult {
    type V = SpeedResultView;

    open spec fn view(&self) -> SpeedResultView {
        SpeedResultView {
            dns_server: self.dns_server@,
            url: self.url@,
            success: self.success,
            download_speed_bps: self.download_speed_bps as nat,
            downloaded_bytes: self.downloaded_bytes as nat,
            test_duration_nanos: self.test_duration_nanos as nat,
            error_message: option_text(self.error_message),
            resolution_time_ms: self.resolution_time_ms,
            session_id: self.session_id,
        }
    }
}

/// The result of a speed probe that ended with `outcome` after `elapsed`
/// nanoseconds. A measurement is a success, with the throughput over the
/// whole time since the probe began; a failure carries its text and no
/// measurement.
pub open spec fn speed_result(
    url: Seq<char>,
    dns_server: Seq<char>,
    session_id: u64,
    outcome: Result<SpeedMeasurement, SpeedFailure>,
    elapsed: nat,
) -> SpeedResultView {
    match outcome {
        Ok(m) => SpeedResultView {
            dns_server,
            url,
            success: true,
            download_speed_bps: bits_per_second(m.downloaded_bytes as nat, elapsed),
            downloaded_bytes: m.downloaded_bytes as nat,
            test_duration_nanos: elapsed,
            error_message: None,
            resolution_time_ms: Some(m.resolution_time_ms),
            session_id,
        },
        Err(failure) => SpeedResultView {
            dns_server,
            url,
            success: false,
            download_speed_bps: 0,
            downloaded_bytes: 0,
            test_duration_nanos: 0,
            error_message: Some(failure.text()),
            resolution_time_ms: failure.resolution_time(),
            session_id,
        },
    }
}

/// The result of the speed probe of `url` through `dns_server` that ended
/// with `outcome` after `elapsed_nanos`.
pub fn test_download_speed_with_dns(
    url: String,
    dns_server: String,
    session_id: u64,
    outcome: Result<SpeedMeasurement, SpeedFailure>,
    elapsed_nanos: u128,
) -> (result: DownloadSpeedResult)
    ensures
        result@ == speed_result(url@, dns_server@, session_id, outcome, elapsed_nanos as nat),
        result.success == outcome is Ok,
        result.success == (result.error_message is None),
{
    match outcome {
        Ok(m) => DownloadSpeedResult {
            dns_server,
            url,
            success: true,
            download_speed_bps: speed_bits_per_second(m.downloaded_bytes, elapsed_nanos),
            downloaded_bytes: m.downloaded_bytes,
            test_duration_nanos: elapsed_nanos,
            error_message: None,
            resolution_time_ms: Some(m.resolution_time_ms),
            session_id,
        },
        Err(failure) => {
            let resolution_time_ms = match failure {
                SpeedFailure::ResolutionTimedOut { seconds, elapsed_ms } => Some(elapsed_ms),
                _ => None,
            };
            DownloadSpeedResult {
                dns_server,
                url,
                success: false,
                download_speed_bps: 0,
                downloaded_bytes: 0,
                test_duration_nanos: 0,
                error_message: Some(failure.message()),
                resolution_time_ms,
                session_id,
            }
        },
    }
}

/// An event of a speed probe with the time at which the caller saw it.
#[derive(Debug, Clone, PartialEq, Eq)]
pub struct SpeedSample {
    /// Nanoseconds on the probe's clock.
    pub at_nanos: u128,
    /// What then happened.
    pub event: SpeedEvent,
}

impl SpeedProbe {
    /// The bytes that the probe has counted: those of its download while it
    /// fetches, those of its measurement once it is done, none otherwise.
    pub open spec fn measured(self) -> nat {
        match self {
            SpeedProbe::Fetching { transfer, .. } => transfer.measured(),
            SpeedProbe::Done(Ok(m)) => m.downloaded_bytes as nat,
            _ => 0,
        }
    }

    /// The bytes that the probe has counted.
    pub fn bytes(&self) -> (n: u64)
        ensures
            n == self.measured(),
    {
        match self {
            SpeedProbe::Fetching { transfer, .. } => transfer.bytes(),
            SpeedProbe::Done(Ok(m)) => m.downloaded_bytes,
            _ => 0,
        }
    }
}

/// The speed probe after the events of `samples`, in order, starting from
/// the started probe `state`.
pub open spec fn speed_run(timeout_seconds: u64, state: SpeedProbe, samples: Seq<SpeedSample>)
    -> SpeedProbe
    decreases samples.len(),
{
    if samples.len() == 0 {
        state
    } else {
        speed_run(
            timeout_seconds,
            speed_next(timeout_seconds, state, samples[0].event, samples[0].at_nanos as nat),
            samples.skip(1),
        )
    }
}

/// No event lowers the bytes that a speed probe has counted.
pub proof fn lemma_speed_next_keeps_bytes(
    timeout_seconds: u64,
    state: SpeedProbe,
    event: SpeedEvent,
    elapsed: nat,
)
    ensures
        state.measured() <= speed_next(timeout_seconds, state, event, elapsed).measured(),
        state is Done ==> speed_next(timeout_seconds, state, event, elapsed) == state,
{
    match (state, event) {
        (
            SpeedProbe::Fetching { host, port, resolution_time_ms, timeout_nanos, transfer },
            SpeedEvent::Transfer(e),
        ) => {
            crate::transfer::lemma_advance_keeps_bytes(
                transfer,
                e,
                elapsed,
                budget_nanos(timeout_seconds),
                StatusPolicy::Any,
            );
        },
        _ => {},
    }
}

/// No run of events lowers the bytes that a speed probe has counted, and a
/// probe that is done stays as it is.
pub proof fn lemma_speed_run_keeps_bytes(
    timeout_seconds: u64,
    state: SpeedProbe,
    samples: Seq<SpeedSample>,
)
    ensures
        state.measured() <= speed_run(timeout_seconds, state, samples).measured(),
        state is Done ==> speed_run(timeout_seconds, state, samples) == state,
    decreases samples.len(),
{
    if samples.len() > 0 {
        let e = samples[0].event;
        let at = samples[0].at_nanos as nat;
        lemma_speed_next_keeps_bytes(timeout_seconds, state, e, at);
        lemma_speed_run_keeps_bytes(
            timeout_seconds,
            speed_next(timeout_seconds, state, e, at),
            samples.skip(1),
        );
    }
}

/// `low` is the probe `high` seen under a smaller budget: the two are in the
/// same state, or fetch with the same download, or `low` is done with no more
/// bytes than `high` holds.
spec fn not_ahead(low: SpeedProbe, high: SpeedProbe) -> bool {
    ||| low == high
    ||| (low is Fetching && high is Fetching && low->Fetching_transfer == high->Fetching_transfer)
    ||| (low is Done && low.measured() <= high.measured())
}

proof fn lemma_speed_run_monotonic_from(
    small: u64,
    large: u64,
    low: SpeedProbe,
    high: SpeedProbe,
    samples: Seq<SpeedSample>,
)
    requires
        small <= large,
        not_ahead(low, high),
    ensures
        speed_run(small, low, samples).measured() <= speed_run(large, high, samples).measured(),
    decreases samples.len(),
{
    if samples.len() > 0 {
        let e = samples[0].event;
        let at = samples[0].at_nanos as nat;
        let low1 = speed_next(small, low, e, at);
        let high1 = speed_next(large, high, e, at);
        if low is Done {
            lemma_speed_run_keeps_bytes(small, low, samples);
            lemma_speed_run_keeps_bytes(large, high, samples);
        } else {
            lemma_speed_next_keeps_bytes(large, high, e, at);
            assert(not_ahead(low1, high1)) by {
                if low is Fetching {
                    if e is Transfer {
                        let t = low->Fetching_transfer;
                        crate::transfer::lemma_advance_keeps_bytes(
                            t,
                            e->Transfer_0,
                            at,
                            budget_nanos(large),
                            StatusPolicy::Any,
                        );
                    }
                }
            }
            lemma_speed_run_monotonic_from(small, large, low1, high1, samples.skip(1));
        }
    }
}

/// A larger time budget never lowers what a speed probe measures: for one and
/// the same course of events, a probe that has started counts at least as
/// many bytes under the budget of `large` seconds as under that of `small`.
pub proof fn lemma_speed_budget_monotonic(
    small: u64,
    large: u64,
    state: SpeedProbe,
    samples: Seq<SpeedSample>,
)
    requires
        small <= large,
    ensures
        speed_run(small, state, samples).measured() <= speed_run(large, state, samples).measured(),
{
    lemma_speed_run_monotonic_from(small, large, state, state, samples);
}

/// Doubling the time budget never lowers what a speed probe measures.
pub proof fn lemma_speed_doubled_budget(seconds: u64, state: SpeedProbe, samples: Seq<SpeedSample>)
    requires
        2 * seconds <= u64::MAX,
    ensures
        speed_run(seconds, state, samples).measured() <= speed_run(
            (2 * seconds) as u64,
            state,
            samples,
        ).measured(),
{
    lemma_speed_budget_monotonic(seconds, (2 * seconds) as u64, state, samples);
}

} // verus!
