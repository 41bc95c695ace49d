use bargozin::docker::get_manifest::{
    ConfigDescriptor, DigestManifest, FetchError, HttpReply, LayerDescriptor, Manifest, ManifestList,
    Platform, REGISTRY_USER_AGENT,
};
use bargozin::docker::{
    download_with_ureq, get_first_layer_digest, image_name_verdict, parse_image_name,
    registry_action, registry_base_url, registry_test_step, start_registry_probe,
    test_docker_registry_download_speed, test_registry_with_manifest_approach,
    validate_docker_image_name, DockerRegistryBulkTestResult, DockerRegistryTestResult, LayerLookup,
    LookupError, ManifestReply, RegistryAction, RegistryError, RegistryEvent, RegistryProbe,
    RegistryTestEvent, RegistryTestStep, DEFAULT_TAG, DOWNLOAD_CHUNK_BYTES, DOWNLOAD_USER_AGENT,
};
use bargozin::transfer::{Transfer, TransferError, TransferEvent};

const REGISTRY: &str = "https://mirror.example";
const SECOND: u128 = 1_000_000_000;

fn parts(name: &str) -> (String, String) {
    parse_image_name(name)
}

fn pair(repository: &str, tag: &str) -> (String, String) {
    (repository.to_string(), tag.to_string())
}

fn manifest_with(sizes: &[u64]) -> DigestManifest {
    DigestManifest {
        schema_version: 2,
        media_type: "application/vnd.docker.distribution.manifest.v2+json".to_string(),
        config: ConfigDescriptor {
            media_type: "application/vnd.docker.container.image.v1+json".to_string(),
            size: 7,
            digest: "sha256:cfg".to_string(),
        },
        layers: sizes
            .iter()
            .enumerate()
            .map(|(i, s)| LayerDescriptor {
                media_type: "layer".to_string(),
                size: *s,
                digest: format!("sha256:layer{}", i),
            })
            .collect(),
    }
}

fn list_with(digests: &[&str]) -> ManifestList {
    ManifestList {
        schema_version: 2,
        media_type: "application/vnd.docker.distribution.manifest.list.v2+json".to_string(),
        manifests: digests
            .iter()
            .map(|d| Manifest {
                digest: d.to_string(),
                media_type: "m".to_string(),
                size: 1,
                platform: Platform { architecture: "amd64".to_string(), os: "linux".to_string(), variant: None },
                annotations: None,
            })
            .collect(),
    }
}

fn list_reply(code: u16, body: Option<ManifestList>) -> ManifestReply {
    ManifestReply::List(HttpReply::Status { code, body })
}

fn manifest_reply(code: u16, body: Option<DigestManifest>) -> ManifestReply {
    ManifestReply::Manifest(HttpReply::Status { code, body })
}

fn lookup(state: LayerLookup, reply: ManifestReply) -> LayerLookup {
    get_first_layer_digest(REGISTRY, "library/ubuntu", "22.04", state, reply)
}

fn probe(state: RegistryProbe, event: RegistryEvent, elapsed: u128) -> RegistryProbe {
    test_registry_with_manifest_approach(REGISTRY, "library/ubuntu", "22.04", 10 * SECOND, state, event, elapsed)
}

fn awaiting(reference: &str, direct: bool) -> LayerLookup {
    LayerLookup::AwaitingManifest { reference: reference.to_string(), direct }
}

#[test]
fn image_name_patterns_accepted() {
    assert!(validate_docker_image_name("ubuntu"));
    assert!(validate_docker_image_name("ubuntu:20.04"));
    assert!(validate_docker_image_name("library/ubuntu:latest"));
    assert!(validate_docker_image_name("myregistry:5000/app"));
    assert!(validate_docker_image_name("registry.example.com/team/app:1.2.3"));
    assert!(validate_docker_image_name("ubuntu@sha256:abcd"));
}

#[test]
fn image_name_patterns_refused() {
    assert!(!validate_docker_image_name(""));
    assert!(!validate_docker_image_name("Ubuntu"));
    assert!(!validate_docker_image_name("ubuntu latest"));
    assert!(!validate_docker_image_name("ubuntu:"));
    assert!(!validate_docker_image_name("ubuntu@@sha256:abcd"));
    assert!(!validate_docker_image_name("a/b/c/d"));
    assert!(!validate_docker_image_name("https://example.com/app"));
}

#[test]
fn verdict_needs_a_match_and_no_double_at() {
    assert!(image_name_verdict(Some(true), "ubuntu"));
    assert!(!image_name_verdict(Some(true), "ubuntu@@x"));
    assert!(!image_name_verdict(Some(false), "ubuntu"));
    assert!(!image_name_verdict(None, "ubuntu"));
}

#[test]
fn parse_plain_name_defaults_to_latest() {
    assert_eq!(parts("ubuntu"), pair("ubuntu", "latest"));
    assert_eq!(DEFAULT_TAG, "latest");
}

#[test]
fn parse_name_with_tag() {
    assert_eq!(parts("ubuntu:20.04"), pair("ubuntu", "20.04"));
    assert_eq!(parts("library/ubuntu:22.04"), pair("library/ubuntu", "22.04"));
}

#[test]
fn parse_name_with_digest_uses_latest() {
    assert_eq!(parts("ubuntu@sha256:abcd"), pair("ubuntu", "latest"));
    assert_eq!(parts("ubuntu:20.04@sha256:abcd"), pair("ubuntu:20.04", "latest"));
    assert_eq!(parts("@sha256:abcd"), pair("", "latest"));
}

#[test]
fn parse_registry_port_is_not_a_tag() {
    assert_eq!(parts("myregistry:5000/app"), pair("myregistry:5000/app", "latest"));
    assert_eq!(parts("myregistry:5000/app:1.0"), pair("myregistry:5000/app", "1.0"));
    assert_eq!(parts("localhost:5000/team/app"), pair("localhost:5000/team/app", "latest"));
    assert_eq!(parts("host:port/app"), pair("host:port/app", "latest"));
}

#[test]
fn parse_numeric_token_after_a_path_is_kept_in_the_repository() {
    assert_eq!(parts("team/app:123"), pair("team/app:123", "latest"));
    assert_eq!(parts("app:123"), pair("app", "123"));
    assert_eq!(parts("team/app:"), pair("team/app:", "latest"));
    assert_eq!(parts("app:"), pair("app", ""));
    assert_eq!(parts(""), pair("", "latest"));
}

#[test]
fn registry_base_url_adds_https() {
    assert_eq!(registry_base_url("mirror.example"), "https://mirror.example");
    assert_eq!(registry_base_url("http://mirror.example"), "http://mirror.example");
    assert_eq!(registry_base_url("https://mirror.example"), "https://mirror.example");
    assert_eq!(registry_base_url(""), "https://");
}

#[test]
fn lookup_list_with_entries_asks_for_first_digest() {
    let next = lookup(LayerLookup::AwaitingList, list_reply(200, Some(list_with(&["sha256:a", "sha256:b"]))));
    assert_eq!(next, awaiting("sha256:a", false));
}

#[test]
fn lookup_empty_or_undecoded_list_falls_back_to_the_tag() {
    let next = lookup(LayerLookup::AwaitingList, list_reply(200, Some(list_with(&[]))));
    assert_eq!(next, awaiting("22.04", true));
    let next = lookup(LayerLookup::AwaitingList, list_reply(200, None));
    assert_eq!(next, awaiting("22.04", true));
}

#[test]
fn lookup_list_errors_fail_the_search() {
    let next = lookup(LayerLookup::AwaitingList, list_reply(401, None));
    let expected = LookupError::List(FetchError::Status {
        code: 401,
        url: "https://mirror.example/v2/library/ubuntu/manifests/22.04".to_string(),
    });
    assert_eq!(next, LayerLookup::Failed(expected.clone()));
    assert_eq!(
        expected.message(),
        "Failed to fetch tag manifest: HTTP error 401: https://mirror.example/v2/library/ubuntu/manifests/22.04"
    );
    let next = lookup(
        LayerLookup::AwaitingList,
        ManifestReply::List(HttpReply::Failed { reason: "no route".to_string() }),
    );
    assert_eq!(next, LayerLookup::Failed(LookupError::List(FetchError::Transport("no route".to_string()))));
}

#[test]
fn lookup_selects_the_layer_of_the_manifest() {
    let next = lookup(
        awaiting("sha256:a", false),
        manifest_reply(200, Some(manifest_with(&[500_000, 50_000_000, 10_000_000]))),
    );
    assert_eq!(next, LayerLookup::Found { digest: "sha256:layer1".to_string() });
    let next = lookup(awaiting("sha256:a", false), manifest_reply(200, Some(manifest_with(&[5_000_000, 50_000_000]))));
    assert_eq!(next, LayerLookup::Found { digest: "sha256:layer0".to_string() });
}

#[test]
fn lookup_selects_a_layer_in_the_fallback_too() {
    let next = lookup(awaiting("22.04", true), manifest_reply(200, Some(manifest_with(&[10, 20]))));
    assert_eq!(next, LayerLookup::Found { digest: "sha256:layer1".to_string() });
}

#[test]
fn lookup_manifest_without_layers_fails() {
    let next = lookup(awaiting("sha256:a", false), manifest_reply(200, Some(manifest_with(&[]))));
    assert_eq!(next, LayerLookup::Failed(LookupError::NoLayers { direct: false }));
    let next = lookup(awaiting("22.04", true), manifest_reply(200, Some(manifest_with(&[]))));
    assert_eq!(next, LayerLookup::Failed(LookupError::NoLayers { direct: true }));
    assert_eq!(LookupError::NoLayers { direct: false }.message(), "No layers found in digest manifest");
    assert_eq!(LookupError::NoLayers { direct: true }.message(), "No layers found in direct manifest");
}

#[test]
fn lookup_manifest_errors_fail_the_search() {
    let next = lookup(awaiting("sha256:a", false), manifest_reply(200, None));
    assert_eq!(
        next,
        LayerLookup::Failed(LookupError::Manifest { direct: false, error: FetchError::Malformed })
    );
    let next = lookup(awaiting("22.04", true), manifest_reply(404, None));
    let expected = LookupError::Manifest {
        direct: true,
        error: FetchError::Status {
            code: 404,
            url: "https://mirror.example/v2/library/ubuntu/manifests/22.04".to_string(),
        },
    };
    assert_eq!(next, LayerLookup::Failed(expected.clone()));
    assert_eq!(
        expected.message(),
        "Failed to fetch direct manifest: HTTP error 404: https://mirror.example/v2/library/ubuntu/manifests/22.04"
    );
    let digest_error = LookupError::Manifest { direct: false, error: FetchError::Transport("x".to_string()) };
    assert_eq!(digest_error.message(), "Failed to fetch digest manifest: x");
}

#[test]
fn lookup_ignores_replies_it_does_not_await() {
    let next = lookup(LayerLookup::AwaitingList, manifest_reply(200, Some(manifest_with(&[1]))));
    assert_eq!(next, LayerLookup::AwaitingList);
    let next = lookup(awaiting("sha256:a", false), list_reply(200, None));
    assert_eq!(next, awaiting("sha256:a", false));
    let found = LayerLookup::Found { digest: "d".to_string() };
    assert_eq!(lookup(found.clone(), list_reply(200, None)), found);
    let failed = LayerLookup::Failed(LookupError::NoLayers { direct: true });
    assert_eq!(lookup(failed.clone(), manifest_reply(200, None)), failed);
}

#[test]
fn blob_is_read_in_fixed_pieces() {
    assert_eq!(DOWNLOAD_CHUNK_BYTES, 8192);
}

#[test]
fn blob_download_requires_status_200() {
    let s = download_with_ureq(Transfer::Connecting, TransferEvent::Response { status: 200 }, 1, 10);
    assert_eq!(s, Transfer::Reading { bytes: 0 });
    let s = download_with_ureq(Transfer::Connecting, TransferEvent::Response { status: 206 }, 1, 10);
    assert_eq!(s, Transfer::Failed(TransferError::Status(206)));
}

#[test]
fn blob_download_counts_until_the_deadline() {
    let s = download_with_ureq(Transfer::Reading { bytes: 8192 }, TransferEvent::Chunk { len: 8192 }, 9, 10);
    assert_eq!(s, Transfer::Reading { bytes: 16384 });
    let s = download_with_ureq(s, TransferEvent::Chunk { len: 8192 }, 10, 10);
    assert_eq!(s, Transfer::Finished { bytes: 16384 });
}

#[test]
fn blob_download_error_policy() {
    let e = TransferEvent::ReadFailed { reason: "reset".to_string() };
    assert_eq!(
        download_with_ureq(Transfer::Reading { bytes: 1 }, e.clone(), 1, 10),
        Transfer::Finished { bytes: 1 }
    );
    assert_eq!(
        download_with_ureq(Transfer::Reading { bytes: 0 }, e, 1, 10),
        Transfer::Failed(TransferError::Read("reset".to_string()))
    );
}

#[test]
fn probe_runs_from_manifests_to_bytes() {
    let mut state = start_registry_probe();
    assert_eq!(state, RegistryProbe::Lookup(LayerLookup::AwaitingList));
    match registry_action(REGISTRY, "library/ubuntu", "22.04", &state) {
        RegistryAction::FetchList(r) => {
            assert_eq!(r.url, "https://mirror.example/v2/library/ubuntu/manifests/22.04");
            assert_eq!(r.user_agent, REGISTRY_USER_AGENT);
        }
        other => panic!("unexpected action {:?}", other),
    }
    state = probe(state, RegistryEvent::Manifest(list_reply(200, Some(list_with(&["sha256:a"])))), SECOND);
    assert_eq!(state, RegistryProbe::Lookup(awaiting("sha256:a", false)));
    match registry_action(REGISTRY, "library/ubuntu", "22.04", &state) {
        RegistryAction::FetchManifest(r) => {
            assert_eq!(r.url, "https://mirror.example/v2/library/ubuntu/manifests/sha256:a");
        }
        other => panic!("unexpected action {:?}", other),
    }
    state = probe(
        state,
        RegistryEvent::Manifest(manifest_reply(200, Some(manifest_with(&[100, 9_000_000])))),
        3 * SECOND,
    );
    assert_eq!(
        state,
        RegistryProbe::Download {
            digest: "sha256:layer1".to_string(),
            timeout_nanos: 7 * SECOND,
            transfer: Transfer::Connecting,
        }
    );
    assert_eq!(
        registry_action(REGISTRY, "library/ubuntu", "22.04", &state),
        RegistryAction::OpenBlob {
            url: "https://mirror.example/v2/library/ubuntu/blobs/sha256:layer1".to_string(),
            user_agent: DOWNLOAD_USER_AGENT.to_string(),
            timeout_nanos: 7 * SECOND,
        }
    );
    state = probe(state, RegistryEvent::Transfer(TransferEvent::Response { status: 200 }), 4 * SECOND);
    assert_eq!(registry_action(REGISTRY, "library/ubuntu", "22.04", &state), RegistryAction::ReadBlob);
    state = probe(state, RegistryEvent::Transfer(TransferEvent::Chunk { len: 4096 }), 5 * SECOND);
    state = probe(state, RegistryEvent::Transfer(TransferEvent::Chunk { len: 4096 }), 6 * SECOND);
    state = probe(state, RegistryEvent::Transfer(TransferEvent::End), 6 * SECOND + 1);
    assert_eq!(state, RegistryProbe::Done(Ok(8192)));
    assert_eq!(registry_action(REGISTRY, "library/ubuntu", "22.04", &state), RegistryAction::Stop);
}

#[test]
fn probe_truncates_at_the_budget() {
    let state = RegistryProbe::Download {
        digest: "d".to_string(),
        timeout_nanos: 5 * SECOND,
        transfer: Transfer::Reading { bytes: 77 },
    };
    let state = probe(state, RegistryEvent::Transfer(TransferEvent::Chunk { len: 1000 }), 10 * SECOND);
    assert_eq!(state, RegistryProbe::Done(Ok(77)));
}

#[test]
fn probe_times_out_when_manifests_used_the_budget() {
    let state = RegistryProbe::Lookup(awaiting("sha256:a", false));
    let next = probe(state, RegistryEvent::Manifest(manifest_reply(200, Some(manifest_with(&[5])))), 10 * SECOND);
    assert_eq!(next, RegistryProbe::Done(Err(RegistryError::ManifestTimeout)));
    assert_eq!(RegistryError::ManifestTimeout.message(), "Timeout during manifest fetching");
}

#[test]
fn probe_fails_with_the_search() {
    let state = RegistryProbe::Lookup(awaiting("sha256:a", false));
    let next = probe(state, RegistryEvent::Manifest(manifest_reply(200, Some(manifest_with(&[])))), SECOND);
    let expected = RegistryError::Lookup(LookupError::NoLayers { direct: false });
    assert_eq!(next, RegistryProbe::Done(Err(expected.clone())));
    assert_eq!(expected.message(), "Failed to get layer digest: No layers found in digest manifest");
}

#[test]
fn probe_fails_with_the_download() {
    let state =
        RegistryProbe::Download { digest: "d".to_string(), timeout_nanos: 5, transfer: Transfer::Connecting };
    let next = probe(state, RegistryEvent::Transfer(TransferEvent::Response { status: 503 }), SECOND);
    assert_eq!(next, RegistryProbe::Done(Err(RegistryError::Download(TransferError::Status(503)))));
    assert_eq!(RegistryError::Download(TransferError::Status(503)).message(), "HTTP error: 503");
    assert_eq!(RegistryError::Download(TransferError::Connect("refused".to_string())).message(), "refused");
    assert_eq!(
        RegistryError::Download(TransferError::Read("reset".to_string())).message(),
        "Download failed: reset"
    );
}

#[test]
fn probe_ignores_events_out_of_place() {
    let state = start_registry_probe();
    let next = probe(state, RegistryEvent::Transfer(TransferEvent::End), SECOND);
    assert_eq!(next, start_registry_probe());
    let done = RegistryProbe::Done(Ok(5));
    assert_eq!(probe(done, RegistryEvent::Transfer(TransferEvent::Chunk { len: 1 }), SECOND), RegistryProbe::Done(Ok(5)));
    let state =
        RegistryProbe::Download { digest: "d".to_string(), timeout_nanos: 5, transfer: Transfer::Connecting };
    let next = probe(state, RegistryEvent::Manifest(list_reply(200, None)), SECOND);
    assert_eq!(
        next,
        RegistryProbe::Download { digest: "d".to_string(), timeout_nanos: 5, transfer: Transfer::Connecting }
    );
}

fn failure(registry: &str, image: &str, message: &str, nanos: u128) -> DockerRegistryTestResult {
    DockerRegistryTestResult {
        registry: registry.to_string(),
        image_name: image.to_string(),
        success: false,
        download_speed_bps: 0,
        downloaded_bytes: 0,
        test_duration_nanos: nanos,
        error_message: Some(message.to_string()),
        session_id: 0,
    }
}

#[test]
fn registry_test_refuses_bad_image_names_before_any_request() {
    let step = test_docker_registry_download_speed("mirror.example", "Not Valid", 10, RegistryTestEvent::Start);
    assert_eq!(
        step,
        RegistryTestStep::Done(failure("mirror.example", "Not Valid", "Invalid Docker image name format", 0))
    );
}

#[test]
fn registry_test_plans_the_probe() {
    let step = test_docker_registry_download_speed("mirror.example", "library/ubuntu:22.04", 10, RegistryTestEvent::Start);
    match step {
        RegistryTestStep::Probe(plan) => {
            assert_eq!(plan.registry_url, "https://mirror.example");
            assert_eq!(plan.repository, "library/ubuntu");
            assert_eq!(plan.tag, "22.04");
            assert_eq!(plan.budget_nanos, 10 * SECOND);
        }
        other => panic!("unexpected step {:?}", other),
    }
}

#[test]
fn registry_test_reports_success_with_speed() {
    let step = test_docker_registry_download_speed(
        "mirror.example",
        "ubuntu",
        10,
        RegistryTestEvent::Finished { outcome: Ok(2_500_000), elapsed_nanos: 2 * SECOND },
    );
    assert_eq!(
        step,
        RegistryTestStep::Done(DockerRegistryTestResult {
            registry: "mirror.example".to_string(),
            image_name: "ubuntu".to_string(),
            success: true,
            download_speed_bps: 10_000_000,
            downloaded_bytes: 2_500_000,
            test_duration_nanos: 2 * SECOND,
            error_message: None,
            session_id: 0,
        })
    );
}

#[test]
fn registry_test_without_bytes_is_a_failure() {
    let step = test_docker_registry_download_speed(
        "mirror.example",
        "ubuntu",
        10,
        RegistryTestEvent::Finished { outcome: Ok(0), elapsed_nanos: 10 * SECOND },
    );
    assert_eq!(step, RegistryTestStep::Done(failure("mirror.example", "ubuntu", "No data downloaded", 10 * SECOND)));
}

#[test]
fn registry_test_reports_the_error_text() {
    let step = test_docker_registry_download_speed(
        "mirror.example",
        "ubuntu",
        10,
        RegistryTestEvent::Finished { outcome: Err(RegistryError::ManifestTimeout), elapsed_nanos: 11 * SECOND },
    );
    assert_eq!(
        step,
        RegistryTestStep::Done(failure("mirror.example", "ubuntu", "Timeout during manifest fetching", 11 * SECOND))
    );
}

#[test]
fn registry_test_step_goes_by_the_given_verdict() {
    let step = registry_test_step("mirror.example", "ubuntu", 10, false, RegistryTestEvent::Start);
    assert_eq!(step, RegistryTestStep::Done(failure("mirror.example", "ubuntu", "Invalid Docker image name format", 0)));
    let step = registry_test_step("http://mirror.example", "ubuntu", 3, true, RegistryTestEvent::Start);
    match step {
        RegistryTestStep::Probe(plan) => {
            assert_eq!(plan.registry_url, "http://mirror.example");
            assert_eq!(plan.repository, "ubuntu");
            assert_eq!(plan.tag, "latest");
            assert_eq!(plan.budget_nanos, 3 * SECOND);
        }
        other => panic!("unexpected step {:?}", other),
    }
}

#[test]
fn bulk_result_holds_its_parts() {
    let ok = DockerRegistryTestResult {
        registry: "a".to_string(),
        image_name: "ubuntu".to_string(),
        success: true,
        download_speed_bps: 8,
        downloaded_bytes: 1,
        test_duration_nanos: SECOND,
        error_message: None,
        session_id: 0,
    };
    let bulk = DockerRegistryBulkTestResult {
        image_name: "ubuntu".to_string(),
        total_registries: 2,
        successful_tests: vec![ok.clone()],
        failed_tests: vec![failure("b", "ubuntu", "No data downloaded", SECOND)],
        test_duration_ms: 2000,
        best_registry: Some("a".to_string()),
        best_speed_bps: 8,
    };
    assert_eq!(bulk.successful_tests[0], ok);
    assert_eq!(bulk.failed_tests.len() + bulk.successful_tests.len(), bulk.total_registries);
}
