use bargozin::config::{list_from, read_list, string_items, ConfigError, YamlList};
use bargozin::docker::{read_docker_registries_file, DOCKER_CONFIG_URL, REGISTRY_LIST_KEY};
use bargozin::utils::{read_dns_file, DNS_CONFIG_URL, DNS_SERVERS_KEY};

fn strings(items: &[&str]) -> Vec<String> {
    items.iter().map(|s| s.to_string()).collect()
}

#[test]
fn dns_list_is_read_in_order() {
    let content = "dnsServers:\n  - 178.22.122.100\n  - 8.8.8.8\n  - 1.1.1.1\n";
    assert_eq!(read_dns_file(content), Ok(strings(&["178.22.122.100", "8.8.8.8", "1.1.1.1"])));
    assert_eq!(DNS_SERVERS_KEY, "dnsServers");
    assert!(DNS_CONFIG_URL.ends_with("/config/dns.yml"));
}

#[test]
fn items_that_are_no_strings_are_left_out() {
    let content = "dnsServers: [1.1.1.1, 5, true, '9.9.9.9', [a], ~]";
    assert_eq!(read_dns_file(content), Ok(strings(&["1.1.1.1", "9.9.9.9"])));
}

#[test]
fn empty_list_is_a_list() {
    assert_eq!(read_dns_file("dnsServers: []"), Ok(Vec::new()));
}

#[test]
fn missing_key_is_an_error() {
    let got = read_dns_file("registryList:\n  - docker.io\n");
    assert_eq!(got, Err(ConfigError::MissingKey("dnsServers".to_string())));
    assert_eq!(got.unwrap_err().message(), "dnsServers key missing");
    assert_eq!(read_dns_file(""), Err(ConfigError::MissingKey("dnsServers".to_string())));
    assert_eq!(read_dns_file("dnsServers: 1.1.1.1"), Err(ConfigError::MissingKey("dnsServers".to_string())));
    assert_eq!(read_dns_file("- a\n- b\n"), Err(ConfigError::MissingKey("dnsServers".to_string())));
}

#[test]
fn document_that_is_no_yaml_is_an_error() {
    match read_dns_file("dnsServers: [1.1.1.1") {
        Err(ConfigError::Invalid(reason)) => {
            assert!(!reason.is_empty());
            assert_eq!(ConfigError::Invalid(reason.clone()).message(), reason);
        }
        other => panic!("unexpected result {:?}", other),
    }
}

#[test]
fn registry_list_is_read_under_its_key() {
    let content = "registryList:\n  - docker.io\n  - https://mirror.example\n";
    assert_eq!(read_docker_registries_file(content), Ok(strings(&["docker.io", "https://mirror.example"])));
    assert_eq!(
        read_docker_registries_file("dnsServers: [1.1.1.1]"),
        Err(ConfigError::MissingKey("registryList".to_string()))
    );
    assert_eq!(REGISTRY_LIST_KEY, "registryList");
    assert!(DOCKER_CONFIG_URL.ends_with("/config/dockerRegistry.yml"));
}

#[test]
fn read_list_goes_by_the_given_key() {
    let content = "a: [x]\nb: [y, z]\n";
    assert_eq!(read_list(content, "a"), Ok(strings(&["x"])));
    assert_eq!(read_list(content, "b"), Ok(strings(&["y", "z"])));
    assert_eq!(read_list(content, "c"), Err(ConfigError::MissingKey("c".to_string())));
}

#[test]
fn string_items_keeps_the_strings_in_order() {
    let items = vec![Some("a".to_string()), None, Some("b".to_string()), None, None, Some("a".to_string())];
    assert_eq!(string_items(items), strings(&["a", "b", "a"]));
    assert_eq!(string_items(vec![None, None]), Vec::<String>::new());
    assert_eq!(string_items(Vec::new()), Vec::<String>::new());
}

#[test]
fn list_from_goes_by_what_was_found() {
    assert_eq!(
        list_from(YamlList::Invalid { reason: "bad".to_string() }, "k"),
        Err(ConfigError::Invalid("bad".to_string()))
    );
    assert_eq!(list_from(YamlList::Missing, "k"), Err(ConfigError::MissingKey("k".to_string())));
    assert_eq!(
        list_from(YamlList::Items(vec![None, Some("x".to_string())]), "k"),
        Ok(strings(&["x"]))
    );
}
