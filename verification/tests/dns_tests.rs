use bargozin::dns::{
    check_url_with_custom_dns, classify_status, download_with_custom_dns, ensure_https,
    ensure_https_url, port_for_scheme, reachability_request, reachability_step, shown_url_from,
    speed_action, speed_probe_step, start_speed_probe, test_download_speed_with_dns,
    test_single_dns_server, CustomDnsResolver, DnsTestResult, DownloadSpeedResult, HttpStatus,
    IpAddress, ReachabilityEvent, ReachabilityStep, SpeedAction, SpeedEvent, SpeedFailure,
    SpeedMeasurement, SpeedProbe, SpeedSample, DNS_SERVERS, REACHABILITY_USER_AGENT,
};
use bargozin::transfer::{Transfer, TransferEvent};
use bargozin::utils::{
    check_url_with_dns, host_url_text, https_candidate_text, normalize_target, ParsedUrl,
    UNLOCKER_USER_AGENT,
};

const SECOND: u128 = 1_000_000_000;

fn google() -> Option<IpAddress> {
    Some(IpAddress::V4([8, 8, 8, 8]))
}

fn pinned() -> CustomDnsResolver {
    CustomDnsResolver {
        address: IpAddress::V4([8, 8, 8, 8]),
        port: 53,
        timeout_secs: 5,
        attempts: 2,
        trust_negative_responses: false,
    }
}

fn parsed(href: &str, scheme: &str, host: Option<&str>) -> ParsedUrl {
    ParsedUrl { href: href.to_string(), scheme: scheme.to_string(), host: host.map(str::to_string) }
}

fn unreachable(domain_url: &str, server: &str, ms: u64, message: &str, why: &str) -> DnsTestResult {
    DnsTestResult {
        dns_server: server.to_string(),
        status: false,
        response_time: Some(ms),
        error_message: Some(message.to_string()),
        session_id: 7,
        http_status: HttpStatus::Failed(why.to_string()),
        test_url: Some(domain_url.to_string()),
    }
}

fn fetching(bytes: Option<u64>) -> SpeedProbe {
    SpeedProbe::Fetching {
        host: "example.com".to_string(),
        port: 443,
        resolution_time_ms: 120,
        timeout_nanos: 9 * SECOND,
        transfer: match bytes {
            Some(b) => Transfer::Reading { bytes: b },
            None => Transfer::Connecting,
        },
    }
}

fn resolving() -> SpeedProbe {
    SpeedProbe::Resolving { host: "example.com".to_string(), port: 443, resolver: pinned() }
}

fn speed(state: SpeedProbe, event: SpeedEvent, elapsed: u128) -> SpeedProbe {
    download_with_custom_dns("https://example.com/file.bin", 10, state, event, elapsed)
}

#[test]
fn default_resolver_list() {
    assert_eq!(DNS_SERVERS.len(), 26);
    assert_eq!(DNS_SERVERS[0], "178.22.122.100");
    assert_eq!(DNS_SERVERS[19], "8.8.8.8");
    assert_eq!(DNS_SERVERS[25], "149.112.112.112");
}

#[test]
fn status_2xx_is_success() {
    assert_eq!(classify_status(200), HttpStatus::Success);
    assert_eq!(classify_status(204), HttpStatus::Success);
    assert_eq!(classify_status(299), HttpStatus::Success);
}

#[test]
fn status_403_is_forbidden() {
    assert_eq!(classify_status(403), HttpStatus::Forbidden403);
}

#[test]
fn other_statuses_keep_their_code() {
    assert_eq!(classify_status(199), HttpStatus::Other(199));
    assert_eq!(classify_status(300), HttpStatus::Other(300));
    assert_eq!(classify_status(404), HttpStatus::Other(404));
    assert_eq!(classify_status(500), HttpStatus::Other(500));
    assert_eq!(classify_status(0), HttpStatus::Other(0));
}

#[test]
fn resolver_is_pinned_to_port_53_over_udp_settings() {
    assert_eq!(CustomDnsResolver::new(google()), Some(pinned()));
    let v6 = IpAddress::V6([0, 0, 0, 0, 0, 0, 0, 0, 0, 0, 0, 0, 0, 0, 0, 1]);
    assert_eq!(
        CustomDnsResolver::new(Some(v6)),
        Some(CustomDnsResolver {
            address: v6,
            port: 53,
            timeout_secs: 5,
            attempts: 2,
            trust_negative_responses: false,
        })
    );
}

#[test]
fn resolver_fails_for_an_address_that_did_not_parse() {
    assert_eq!(CustomDnsResolver::new(None), None);
}

#[test]
fn https_candidate_strips_a_leading_scheme() {
    assert_eq!(https_candidate_text("example.com"), "https://example.com");
    assert_eq!(https_candidate_text("http://example.com"), "https://example.com");
    assert_eq!(https_candidate_text("https://example.com/path"), "https://example.com/path");
    assert_eq!(https_candidate_text("http://https://x"), "https://x");
    assert_eq!(https_candidate_text("x/?u=http://y"), "https://x/?u=http://y");
    assert_eq!(https_candidate_text(""), "https://");
    assert_eq!(host_url_text("example.com"), "https://example.com/");
}

#[test]
fn target_is_the_host_alone() {
    let u = ensure_https_url("http://example.com/a/b").expect("an address is a target");
    assert_eq!(u, parsed("https://example.com/", "https", Some("example.com")));
    let u = ensure_https_url("Example.COM").expect("a domain is a target");
    assert_eq!(u, parsed("https://example.com/", "https", Some("example.com")));
    let u = ensure_https_url(" http://example.com/a b?q=1#f ").expect("a path is dropped");
    assert_eq!(u, parsed("https://example.com/", "https", Some("example.com")));
    let u = bargozin::utils::ensure_https("10.0.0.1:8443/x").expect("an address with a port");
    assert_eq!(u, parsed("https://10.0.0.1/", "https", Some("10.0.0.1")));
    let u = ensure_https_url("example.com/redirect?u=http://other.example").expect("a target");
    assert_eq!(u.href, "https://example.com/");
}

#[test]
fn ensure_https_url_refuses_what_is_no_address() {
    assert_eq!(ensure_https_url(""), None);
    assert_eq!(ensure_https_url("   "), None);
    assert_eq!(ensure_https_url("exa mple.com"), None);
    assert_eq!(bargozin::utils::ensure_https("http://"), None);
}

#[test]
fn normalize_target_keeps_the_host_only() {
    assert_eq!(normalize_target(None), None);
    assert_eq!(normalize_target(Some(parsed("data:x", "data", None))), None);
    assert_eq!(
        normalize_target(Some(parsed("https://h:8443/p/q?x#y", "https", Some("h")))),
        Some(parsed("https://h/", "https", Some("h")))
    );
    assert_eq!(
        normalize_target(Some(parsed("ftp://h/p", "ftp", Some("h")))),
        Some(parsed("https://h/", "https", Some("h")))
    );
}

#[test]
fn shown_url_is_the_host_between_https_and_slash() {
    assert_eq!(ensure_https("example.com"), "https://example.com/");
    assert_eq!(ensure_https("http://example.com/some/path?q=1"), "https://example.com/");
    assert_eq!(ensure_https("https://Example.com"), "https://example.com/");
    assert_eq!(ensure_https("example.com:8080/x"), "https://example.com/");
}

#[test]
fn shown_url_falls_back_to_the_candidate() {
    assert_eq!(ensure_https(""), "https://");
    assert_eq!(ensure_https("exa mple.com"), "https://exa mple.com");
    assert_eq!(shown_url_from(None, "https://x y".to_string()), "https://x y");
    assert_eq!(shown_url_from(Some(parsed("data:x", "data", None)), "c".to_string()), "c");
    assert_eq!(
        shown_url_from(Some(parsed("https://h/p", "https", Some("h"))), "c".to_string()),
        "https://h/"
    );
}

#[test]
fn reachability_request_goes_to_port_443_unchecked() {
    let probe = reachability_request(&parsed("https://example.com/a/b", "https", Some("example.com")))
        .expect("the address has a host");
    assert_eq!(probe.url, "https://example.com/");
    assert_eq!(probe.host, "example.com");
    assert_eq!(probe.port, 443);
    assert_eq!(probe.timeout_secs, 10);
    assert_eq!(probe.user_agent, REACHABILITY_USER_AGENT);
    assert!(probe.accept_invalid_certs);
    assert_eq!(reachability_request(&parsed("data:x", "data", None)), None);
}

#[test]
fn check_url_plans_request_and_resolver() {
    let url = parsed("https://example.com/a/b?q", "https", Some("example.com"));
    let (probe, resolver) = check_url_with_custom_dns(&url, google()).expect("both are valid");
    assert_eq!(resolver, pinned());
    assert_eq!(probe.host, "example.com");
    assert_eq!(probe.url, "https://example.com/");
    assert_eq!(probe.user_agent, "Mozilla/5.0 (compatible; Bargozin-DNS-Tester)");
    assert_eq!(check_url_with_custom_dns(&url, None), None);
    assert_eq!(check_url_with_custom_dns(&parsed("data:x", "data", None), google()), None);
    let (probe, resolver) = check_url_with_dns(&url, google()).expect("both are valid");
    assert_eq!(resolver, pinned());
    assert_eq!(probe.url, "https://example.com/");
    assert_eq!(probe.port, 443);
    assert_eq!(probe.timeout_secs, 10);
    assert_eq!(probe.user_agent, UNLOCKER_USER_AGENT);
    assert_eq!(check_url_with_dns(&url, None), None);
}

#[test]
fn reachability_starts_with_the_resolution() {
    let step = test_single_dns_server("example.com", "8.8.8.8", 7, ReachabilityEvent::Start { address: google() }, 0);
    assert_eq!(step, ReachabilityStep::Resolve { host: "example.com".to_string(), resolver: pinned() });
}

#[test]
fn unparseable_candidate_fails_at_once() {
    let step = test_single_dns_server("example.com", "not-an-ip", 7, ReachabilityEvent::Start { address: None }, 3);
    assert_eq!(
        step,
        ReachabilityStep::Done(unreachable(
            "https://example.com/",
            "not-an-ip",
            3,
            "Invalid DNS server address",
            "Invalid DNS server"
        ))
    );
}

#[test]
fn invalid_domain_fails_at_once() {
    let step = test_single_dns_server("exa mple.com", "8.8.8.8", 7, ReachabilityEvent::Start { address: google() }, 1);
    assert_eq!(
        step,
        ReachabilityStep::Done(unreachable(
            "https://exa mple.com",
            "8.8.8.8",
            1,
            "Invalid domain format",
            "Invalid domain"
        ))
    );
}

#[test]
fn reachability_sends_the_request_once_resolved() {
    let step = test_single_dns_server("http://example.com/a/b", "8.8.8.8", 7, ReachabilityEvent::Resolved, 40);
    match step {
        ReachabilityStep::Get(probe) => {
            assert_eq!(probe.url, "https://example.com/");
            assert_eq!(probe.host, "example.com");
            assert_eq!(probe.port, 443);
            assert_eq!(probe.timeout_secs, 10);
            assert!(probe.accept_invalid_certs);
        }
        other => panic!("unexpected step {:?}", other),
    }
}

#[test]
fn http_200_is_a_success() {
    let step = test_single_dns_server(
        "example.com",
        "8.8.8.8",
        7,
        ReachabilityEvent::Responded { code: 200, reason: "OK".to_string() },
        120,
    );
    assert_eq!(
        step,
        ReachabilityStep::Done(DnsTestResult {
            dns_server: "8.8.8.8".to_string(),
            status: true,
            response_time: Some(120),
            error_message: None,
            session_id: 7,
            http_status: HttpStatus::Success,
            test_url: Some("https://example.com/".to_string()),
        })
    );
}

#[test]
fn http_403_is_forbidden_and_unsuccessful() {
    let step = test_single_dns_server(
        "example.com",
        "8.8.8.8",
        7,
        ReachabilityEvent::Responded { code: 403, reason: "Forbidden".to_string() },
        120,
    );
    assert_eq!(
        step,
        ReachabilityStep::Done(DnsTestResult {
            dns_server: "8.8.8.8".to_string(),
            status: false,
            response_time: Some(120),
            error_message: Some("HTTP 403 - Forbidden".to_string()),
            session_id: 7,
            http_status: HttpStatus::Forbidden403,
            test_url: Some("https://example.com/".to_string()),
        })
    );
}

#[test]
fn other_status_is_reported_with_its_code() {
    let step = reachability_step(
        Some(parsed("https://example.com/", "https", Some("example.com"))),
        "https://example.com/".to_string(),
        "1.1.1.1",
        0,
        ReachabilityEvent::Responded { code: 301, reason: "Moved Permanently".to_string() },
        9,
    );
    match step {
        ReachabilityStep::Done(result) => {
            assert!(!result.status);
            assert_eq!(result.http_status, HttpStatus::Other(301));
            assert_eq!(result.error_message.as_deref(), Some("HTTP 301 - Moved Permanently"));
            assert_eq!(result.session_id, 0);
        }
        other => panic!("unexpected step {:?}", other),
    }
}

#[test]
fn connection_refused_is_connection_failed() {
    let step = test_single_dns_server("example.com", "8.8.8.8", 7, ReachabilityEvent::ConnectionFailed, 10_000);
    assert_eq!(
        step,
        ReachabilityStep::Done(unreachable(
            "https://example.com/",
            "8.8.8.8",
            10_000,
            "HTTP request failed",
            "Connection failed"
        ))
    );
}

#[test]
fn failed_resolution_is_resolution_failed_with_its_time() {
    let step = test_single_dns_server("example.com", "8.8.8.8", 7, ReachabilityEvent::ResolutionFailed, 5_003);
    assert_eq!(
        step,
        ReachabilityStep::Done(unreachable(
            "https://example.com/",
            "8.8.8.8",
            5_003,
            "DNS resolution failed",
            "Resolution failed"
        ))
    );
}

#[test]
fn reachability_step_goes_by_the_given_parse() {
    let step = reachability_step(None, "shown".to_string(), "8.8.8.8", 7, ReachabilityEvent::Start { address: google() }, 2);
    assert_eq!(step, ReachabilityStep::Done(unreachable("shown", "8.8.8.8", 2, "Invalid domain format", "Invalid domain")));
    let step = reachability_step(
        Some(parsed("data:x", "data", None)),
        "shown".to_string(),
        "8.8.8.8",
        7,
        ReachabilityEvent::Resolved,
        2,
    );
    assert_eq!(step, ReachabilityStep::Done(unreachable("shown", "8.8.8.8", 2, "Invalid domain format", "Invalid domain")));
    let step = reachability_step(
        Some(parsed("https://h/", "https", Some("h"))),
        "shown".to_string(),
        "x",
        7,
        ReachabilityEvent::Start { address: None },
        2,
    );
    assert_eq!(step, ReachabilityStep::Done(unreachable("shown", "x", 2, "Invalid DNS server address", "Invalid DNS server")));
}

#[test]
fn port_follows_the_scheme() {
    assert_eq!(port_for_scheme("https"), Some(443));
    assert_eq!(port_for_scheme("http"), Some(80));
    assert_eq!(port_for_scheme("ftp"), None);
    assert_eq!(port_for_scheme("HTTPS"), None);
    assert_eq!(port_for_scheme(""), None);
}

#[test]
fn speed_probe_starts_with_the_resolution() {
    let next = speed(SpeedProbe::New, SpeedEvent::Start { address: google() }, 0);
    assert_eq!(next, resolving());
    assert_eq!(
        speed_action(10, &next),
        SpeedAction::Resolve { host: "example.com".to_string(), resolver: pinned(), timeout_nanos: 10 * SECOND }
    );
    let next = download_with_custom_dns("http://example.com/x", 10, SpeedProbe::New, SpeedEvent::Start { address: google() }, 0);
    assert_eq!(next, SpeedProbe::Resolving { host: "example.com".to_string(), port: 80, resolver: pinned() });
    assert_eq!(speed_action(10, &SpeedProbe::New), SpeedAction::Begin);
}

#[test]
fn speed_probe_refuses_bad_input_before_any_request() {
    let start = || SpeedEvent::Start { address: google() };
    let next = download_with_custom_dns("not a url", 10, SpeedProbe::New, start(), 0);
    assert_eq!(next, SpeedProbe::Done(Err(SpeedFailure::InvalidUrl)));
    let next = download_with_custom_dns("data:text/plain,hi", 10, SpeedProbe::New, start(), 0);
    assert_eq!(next, SpeedProbe::Done(Err(SpeedFailure::InvalidHost)));
    let next = download_with_custom_dns("ftp://example.com/x", 10, SpeedProbe::New, start(), 0);
    assert_eq!(next, SpeedProbe::Done(Err(SpeedFailure::UnsupportedScheme)));
    let next = download_with_custom_dns("https://example.com/x", 10, SpeedProbe::New, SpeedEvent::Start { address: None }, 0);
    assert_eq!(next, SpeedProbe::Done(Err(SpeedFailure::InvalidResolver)));
    assert_eq!(speed_action(10, &next), SpeedAction::Stop);
}

#[test]
fn start_speed_probe_goes_by_the_given_parse() {
    assert_eq!(start_speed_probe(None, google()), SpeedProbe::Done(Err(SpeedFailure::InvalidUrl)));
    assert_eq!(
        start_speed_probe(Some(parsed("mailto:a@b", "mailto", None)), google()),
        SpeedProbe::Done(Err(SpeedFailure::InvalidHost))
    );
    assert_eq!(
        start_speed_probe(Some(parsed("ws://h/", "ws", Some("h"))), google()),
        SpeedProbe::Done(Err(SpeedFailure::UnsupportedScheme))
    );
    assert_eq!(
        start_speed_probe(Some(parsed("http://h/", "http", Some("h"))), None),
        SpeedProbe::Done(Err(SpeedFailure::InvalidResolver))
    );
    assert_eq!(
        start_speed_probe(Some(parsed("http://h/", "http", Some("h"))), google()),
        SpeedProbe::Resolving { host: "h".to_string(), port: 80, resolver: pinned() }
    );
}

#[test]
fn resolution_leaves_the_rest_of_the_budget_for_the_transfer() {
    let next = speed(resolving(), SpeedEvent::Resolved, 3 * SECOND + 500_000);
    assert_eq!(
        next,
        SpeedProbe::Fetching {
            host: "example.com".to_string(),
            port: 443,
            resolution_time_ms: 3_000,
            timeout_nanos: 7 * SECOND - 500_000,
            transfer: Transfer::Connecting,
        }
    );
    assert_eq!(
        speed_action(10, &next),
        SpeedAction::Connect { host: "example.com".to_string(), port: 443, timeout_nanos: 7 * SECOND - 500_000 }
    );
}

#[test]
fn resolution_that_used_the_budget_times_out_before_transfer() {
    let next = speed(resolving(), SpeedEvent::Resolved, 10 * SECOND);
    assert_eq!(next, SpeedProbe::Done(Err(SpeedFailure::TimedOutBeforeTransfer)));
    let next = speed(resolving(), SpeedEvent::Resolved, 11 * SECOND);
    assert_eq!(next, SpeedProbe::Done(Err(SpeedFailure::TimedOutBeforeTransfer)));
}

#[test]
fn resolution_failures_end_the_probe() {
    let next = speed(resolving(), SpeedEvent::ResolutionFailed { reason: "no record".to_string() }, SECOND);
    assert_eq!(next, SpeedProbe::Done(Err(SpeedFailure::ResolutionFailed("no record".to_string()))));
    let next = speed(resolving(), SpeedEvent::ResolutionTimedOut, 10 * SECOND + 2_000_000);
    assert_eq!(
        next,
        SpeedProbe::Done(Err(SpeedFailure::ResolutionTimedOut { seconds: 10, elapsed_ms: 10_002 }))
    );
}

#[test]
fn speed_transfer_accepts_any_status_and_counts_bytes() {
    let mut state = speed(fetching(None), SpeedEvent::Transfer(TransferEvent::Response { status: 404 }), 4 * SECOND);
    assert_eq!(state, fetching(Some(0)));
    assert_eq!(speed_action(10, &state), SpeedAction::Read);
    state = speed(state, SpeedEvent::Transfer(TransferEvent::Chunk { len: 1000 }), 5 * SECOND);
    state = speed(state, SpeedEvent::Transfer(TransferEvent::Chunk { len: 24 }), 6 * SECOND);
    assert_eq!(state, fetching(Some(1024)));
    state = speed(state, SpeedEvent::Transfer(TransferEvent::End), 7 * SECOND);
    assert_eq!(
        state,
        SpeedProbe::Done(Ok(SpeedMeasurement { downloaded_bytes: 1024, resolution_time_ms: 120 }))
    );
}

#[test]
fn speed_transfer_is_truncated_at_the_budget() {
    let state = speed(fetching(Some(5000)), SpeedEvent::Transfer(TransferEvent::Chunk { len: 1000 }), 10 * SECOND);
    assert_eq!(
        state,
        SpeedProbe::Done(Ok(SpeedMeasurement { downloaded_bytes: 5000, resolution_time_ms: 120 }))
    );
}

#[test]
fn speed_transfer_error_policy() {
    let broken = || SpeedEvent::Transfer(TransferEvent::ReadFailed { reason: "reset".to_string() });
    assert_eq!(
        speed(fetching(Some(5)), broken(), SECOND),
        SpeedProbe::Done(Ok(SpeedMeasurement { downloaded_bytes: 5, resolution_time_ms: 120 }))
    );
    assert_eq!(
        speed(fetching(Some(0)), broken(), SECOND),
        SpeedProbe::Done(Err(SpeedFailure::Stream("reset".to_string())))
    );
    assert_eq!(
        speed(fetching(None), SpeedEvent::Transfer(TransferEvent::ConnectFailed { reason: "refused".to_string() }), SECOND),
        SpeedProbe::Done(Err(SpeedFailure::Request("refused".to_string())))
    );
}

#[test]
fn speed_probe_ignores_events_out_of_place() {
    assert_eq!(speed(SpeedProbe::New, SpeedEvent::Resolved, 0), SpeedProbe::New);
    assert_eq!(speed(resolving(), SpeedEvent::Transfer(TransferEvent::End), 0), resolving());
    assert_eq!(speed(fetching(Some(3)), SpeedEvent::Resolved, 0), fetching(Some(3)));
    assert_eq!(speed(resolving(), SpeedEvent::Start { address: None }, 0), resolving());
    let done = || SpeedProbe::Done(Err(SpeedFailure::InvalidHost));
    assert_eq!(speed(done(), SpeedEvent::Start { address: google() }, 0), done());
    let stepped = speed_probe_step(None, 10, fetching(Some(3)), SpeedEvent::Transfer(TransferEvent::Chunk { len: 1 }), 1);
    assert_eq!(stepped, fetching(Some(4)));
}

#[test]
fn speed_failure_texts() {
    assert_eq!(SpeedFailure::InvalidUrl.message(), "Invalid URL");
    assert_eq!(SpeedFailure::InvalidHost.message(), "Invalid host");
    assert_eq!(SpeedFailure::UnsupportedScheme.message(), "Unsupported scheme");
    assert_eq!(SpeedFailure::InvalidResolver.message(), "Invalid DNS server address");
    assert_eq!(
        SpeedFailure::ResolutionTimedOut { seconds: 10, elapsed_ms: 10_002 }.message(),
        "DNS resolution timed out after 10 seconds"
    );
    assert_eq!(SpeedFailure::ResolutionFailed("no record".to_string()).message(), "DNS resolution failed: no record");
    assert_eq!(SpeedFailure::TimedOutBeforeTransfer.message(), "Operation timed out before HTTP request");
    assert_eq!(SpeedFailure::Request("refused".to_string()).message(), "HTTP request failed: refused");
    assert_eq!(SpeedFailure::Status(500).message(), "HTTP error: 500");
    assert_eq!(SpeedFailure::Stream("reset".to_string()).message(), "Stream error: reset");
}

#[test]
fn speed_result_of_a_measurement() {
    let result = test_download_speed_with_dns(
        "https://example.com/file.bin".to_string(),
        "8.8.8.8".to_string(),
        42,
        Ok(SpeedMeasurement { downloaded_bytes: 5_000_000, resolution_time_ms: 120 }),
        4 * SECOND,
    );
    assert_eq!(
        result,
        DownloadSpeedResult {
            dns_server: "8.8.8.8".to_string(),
            url: "https://example.com/file.bin".to_string(),
            success: true,
            download_speed_bps: 10_000_000,
            downloaded_bytes: 5_000_000,
            test_duration_nanos: 4 * SECOND,
            error_message: None,
            resolution_time_ms: Some(120),
            session_id: 42,
        }
    );
}

#[test]
fn speed_result_of_a_failure() {
    let result = test_download_speed_with_dns(
        "https://example.com/file.bin".to_string(),
        "8.8.8.8".to_string(),
        42,
        Err(SpeedFailure::Stream("reset".to_string())),
        4 * SECOND,
    );
    assert_eq!(
        result,
        DownloadSpeedResult {
            dns_server: "8.8.8.8".to_string(),
            url: "https://example.com/file.bin".to_string(),
            success: false,
            download_speed_bps: 0,
            downloaded_bytes: 0,
            test_duration_nanos: 0,
            error_message: Some("Stream error: reset".to_string()),
            resolution_time_ms: None,
            session_id: 42,
        }
    );
}

#[test]
fn speed_result_of_a_resolution_timeout_reports_the_time() {
    let result = test_download_speed_with_dns(
        "u".to_string(),
        "d".to_string(),
        1,
        Err(SpeedFailure::ResolutionTimedOut { seconds: 3, elapsed_ms: 3_001 }),
        4 * SECOND,
    );
    assert!(!result.success);
    assert_eq!(result.resolution_time_ms, Some(3_001));
    assert_eq!(result.error_message.as_deref(), Some("DNS resolution timed out after 3 seconds"));
}

#[test]
fn speed_probe_reports_a_refused_status() {
    let state = SpeedProbe::Fetching {
        host: "example.com".to_string(),
        port: 443,
        resolution_time_ms: 1,
        timeout_nanos: SECOND,
        transfer: Transfer::Failed(bargozin::transfer::TransferError::Status(500)),
    };
    let next = speed(state, SpeedEvent::Transfer(TransferEvent::End), SECOND);
    assert_eq!(next, SpeedProbe::Done(Err(SpeedFailure::Status(500))));
}

#[test]
fn every_result_is_a_success_or_a_failure_with_a_message() {
    let events = vec![
        ReachabilityEvent::Start { address: None },
        ReachabilityEvent::ResolutionFailed,
        ReachabilityEvent::ConnectionFailed,
        ReachabilityEvent::Responded { code: 200, reason: "OK".to_string() },
        ReachabilityEvent::Responded { code: 403, reason: "Forbidden".to_string() },
        ReachabilityEvent::Responded { code: 500, reason: "Internal Server Error".to_string() },
    ];
    for event in events {
        match test_single_dns_server("example.com", "8.8.8.8", 1, event, 5) {
            ReachabilityStep::Done(result) => {
                assert_eq!(result.status, result.error_message.is_none());
            }
            other => panic!("unexpected step {:?}", other),
        }
    }
}

fn course_of_events() -> Vec<SpeedSample> {
    let mut samples = vec![
        SpeedSample { at_nanos: SECOND, event: SpeedEvent::Resolved },
        SpeedSample {
            at_nanos: 2 * SECOND,
            event: SpeedEvent::Transfer(TransferEvent::Response { status: 200 }),
        },
    ];
    for i in 0..40u128 {
        samples.push(SpeedSample {
            at_nanos: 2 * SECOND + (i + 1) * SECOND / 2,
            event: SpeedEvent::Transfer(TransferEvent::Chunk { len: 1000 }),
        });
    }
    samples
}

fn bytes_under(timeout_seconds: u64) -> u64 {
    let mut state = resolving();
    for sample in course_of_events() {
        state = download_with_custom_dns(
            "https://example.com/file.bin",
            timeout_seconds,
            state,
            sample.event,
            sample.at_nanos,
        );
    }
    state.bytes()
}

#[test]
fn speed_probe_counts_the_bytes_seen_before_the_deadline() {
    // chunks are seen at 2.5 s, 3 s, 3.5 s, ...: under 5 s those at 2.5 .. 4.5 count
    assert_eq!(bytes_under(5), 5_000);
    assert_eq!(bytes_under(10), 15_000);
    assert_eq!(bytes_under(1), 0);
    assert_eq!(bytes_under(2), 0);
    assert_eq!(bytes_under(60), 40_000);
}

#[test]
fn doubling_the_budget_never_lowers_what_the_speed_probe_measures() {
    for seconds in 0..30u64 {
        assert!(bytes_under(seconds) <= bytes_under(2 * seconds), "budget {}", seconds);
    }
}
