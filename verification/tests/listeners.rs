use multicast_discovery::connectable::{binding_of, connectable_listeners, url_at_host, Binding};
use multicast_discovery::context::{GlobalCtx, NetworkIdentity};
use multicast_discovery::discovery_manager::{listed, DiscoveryManager};
use multicast_discovery::listener::{parse_listeners, ListenerUrl};
use multicast_discovery::multicast_discovery::MulticastDiscoveryConnector;
use multicast_discovery::text::decimal_text;

fn url(text: &str) -> ListenerUrl {
    ListenerUrl::parse(text).unwrap()
}

fn strings(items: &[&str]) -> Vec<String> {
    items.iter().map(|s| s.to_string()).collect()
}

fn mock_global_ctx() -> GlobalCtx {
    GlobalCtx {
        id: "instance".to_string(),
        hostname: "host".to_string(),
        version: "1.0.0".to_string(),
        network_identity: NetworkIdentity {
            network_name: "net".to_string(),
            network_secret_digest: None,
        },
        running_listeners: vec![],
        interface_ipv4s: strings(&["192.168.1.7", "172.16.4.2"]),
        interface_ipv6s: strings(&["fe80::1"]),
        enable_multicast_discovery: false,
    }
}

#[test]
fn test_is_our_listener() {
    let global_ctx = mock_global_ctx();
    assert!(DiscoveryManager::is_our_listener("tcp://127.0.0.1:8080", &global_ctx) == false);
    assert!(DiscoveryManager::same_host_port(
        &url("tcp://127.0.0.1:8080"),
        "udp://127.0.0.1:8080"
    ));
    assert!(!DiscoveryManager::same_host_port(
        &url("tcp://127.0.0.1:8080"),
        "tcp://127.0.0.1:8081"
    ));
}

#[test]
fn test_multicast_connector_creation() {
    let connector = MulticastDiscoveryConnector::new(mock_global_ctx());
    assert!(!connector.session().socket);
    assert_eq!(connector.remote_url().unwrap().text, "multicast://224.0.0.251:55301");
}

#[test]
fn test_connectable_listeners_conversion() {
    let connector = MulticastDiscoveryConnector::new(mock_global_ctx());
    let bind_listeners = vec![
        url("tcp://0.0.0.0:11010"),
        url("udp://[::]:11010"),
        url("tcp://192.168.1.100:11010"),
        url("ring://some-uuid"),
    ];

    let connectable = connector.create_connectable_listeners(&bind_listeners);

    assert!(connectable.len() >= bind_listeners.len());
    assert!(!connectable.iter().any(|url| url.contains("0.0.0.0")));
    assert!(!connectable.iter().any(|url| url.contains("[::]")));
    assert!(connectable.iter().any(|url| url.contains("192.168.1.100:11010")));
    assert!(connectable.iter().any(|url| url.starts_with("ring://")));
    assert_eq!(
        connectable,
        strings(&[
            "tcp://192.168.1.7:11010",
            "tcp://172.16.4.2:11010",
            "udp://[fe80::1]:11010",
            "tcp://192.168.1.100:11010",
            "ring://some-uuid",
        ])
    );
}

#[test]
fn a_url_is_taken_apart() {
    let u = url("TCP://Example.Host:11010/a/b?q#f");
    assert_eq!(u.text, "tcp://Example.Host:11010/a/b?q#f");
    assert_eq!(u.scheme, "tcp");
    assert_eq!(u.host_str, Some("Example.Host".to_string()));
    assert_eq!(u.port, Some(11010));
    assert_eq!(u.path, "/a/b");
}

#[test]
fn hosts_stand_as_in_the_url() {
    assert_eq!(url("ws://10.1.2.3:99").host_str, Some("10.1.2.3".to_string()));
    assert_eq!(url("tcp://10.1.2.3:99").host_str, Some("10.1.2.3".to_string()));
    assert_eq!(url("ws://Example.Host:99").host_str, Some("example.host".to_string()));
    assert_eq!(url("tcp://[fe80:0::1]:99").host_str, Some("[fe80::1]".to_string()));
    assert!(url("unix:/tmp/socket").host_str.is_none());
}

#[test]
fn a_default_port_is_not_named() {
    assert_eq!(url("ws://h:80").port, None);
    assert_eq!(url("tcp://h:80").port, Some(80));
    assert_eq!(url("tcp://h").port, None);
}

#[test]
fn what_is_no_url_does_not_parse() {
    assert!(ListenerUrl::parse("").is_none());
    assert!(ListenerUrl::parse("192.168.1.1:80").is_none());
    assert!(ListenerUrl::parse("tcp://h:notaport").is_none());
}

#[test]
fn unreadable_addresses_are_passed_over_in_order() {
    let urls = parse_listeners(&strings(&["tcp://a:1", "nonsense", "udp://b:2", ""]));
    let texts: Vec<String> = urls.iter().map(|u| u.text.clone()).collect();
    assert_eq!(texts, strings(&["tcp://a:1", "udp://b:2"]));
}

#[test]
fn endpoints_compare_by_host_and_port() {
    assert!(url("tcp://h:1/x").same_endpoint(&url("udp://h:1/y")));
    assert!(!url("tcp://h:1").same_endpoint(&url("tcp://g:1")));
    assert!(!url("tcp://h:1").same_endpoint(&url("tcp://h")));
    assert!(url("tcp://127.0.0.1:8080").same_endpoint(&url("http://127.0.0.1:8080")));
    assert!(DiscoveryManager::same_host_port(
        &url("tcp://127.0.0.1:8080"),
        "ws://127.0.0.1:8080"
    ));
    assert!(!DiscoveryManager::same_host_port(
        &url("tcp://127.0.0.1:8080"),
        "ws://127.0.0.2:8080"
    ));
    assert!(url("unix:/a").same_endpoint(&url("other:/b")));
    assert!(url("tcp://[::1]:5").same_endpoint(&url("udp://[0:0::1]:5")));
    assert!(!DiscoveryManager::same_host_port(&url("tcp://h:1"), "no url"));
}

#[test]
fn own_listeners_are_recognised() {
    let mut ctx = mock_global_ctx();
    ctx.running_listeners = vec![url("tcp://10.0.0.1:11010"), url("ring://some-uuid")];
    assert!(DiscoveryManager::is_our_listener("tcp://10.0.0.1:11010", &ctx));
    assert!(DiscoveryManager::is_our_listener("wg://10.0.0.1:11010", &ctx));
    assert!(DiscoveryManager::is_our_listener("ring://some-uuid", &ctx));
    assert!(!DiscoveryManager::is_our_listener("tcp://10.0.0.1:11011", &ctx));
    assert!(!DiscoveryManager::is_our_listener("tcp://10.0.0.2:11010", &ctx));
    assert!(!DiscoveryManager::is_our_listener("garbage", &ctx));
}

#[test]
fn a_listed_address_needs_no_parse() {
    let ours = vec![url("tcp://10.0.0.1:11010")];
    assert!(listed(&ours, "tcp://10.0.0.1:11010", &None));
    assert!(!listed(&ours, "udp://10.0.0.1:11010", &None));
    assert!(listed(&ours, "anything", &Some(url("udp://10.0.0.1:11010"))));
    assert!(!listed(&vec![], "anything", &Some(url("udp://10.0.0.1:11010"))));
}

#[test]
fn bindings_are_told_apart() {
    assert_eq!(binding_of(&url("tcp://0.0.0.0:1")), Binding::AnyIpv4);
    assert_eq!(binding_of(&url("ws://0.0.0.0:1")), Binding::AnyIpv4);
    assert_eq!(binding_of(&url("tcp://[::]:1")), Binding::AnyIpv6);
    assert_eq!(binding_of(&url("tcp://[0:0:0:0:0:0:0:0]:1")), Binding::AnyIpv6);
    assert_eq!(binding_of(&url("tcp://[::1]:1")), Binding::Specific);
    assert_eq!(binding_of(&url("tcp://10.0.0.1:1")), Binding::Specific);
    assert_eq!(binding_of(&url("ring://0.0.0.0")), Binding::Specific);
    assert_eq!(binding_of(&url("unix:/tmp/socket")), Binding::Specific);
}

#[test]
fn an_unbracketed_wildcard_is_a_wildcard() {
    let mut u = url("tcp://[::]:1");
    u.host_str = Some("::".to_string());
    assert_eq!(binding_of(&u), Binding::AnyIpv6);
}

#[test]
fn port_and_path_are_announced() {
    assert_eq!(url_at_host(&url("tcp://0.0.0.0"), "1.2.3.4"), "tcp://1.2.3.4:80");
    assert_eq!(url_at_host(&url("ws://0.0.0.0:11011/"), "1.2.3.4"), "ws://1.2.3.4:11011");
    assert_eq!(url_at_host(&url("ws://0.0.0.0:80/"), "1.2.3.4"), "ws://1.2.3.4:80");
    assert_eq!(url_at_host(&url("wss://0.0.0.0:443/"), "1.2.3.4"), "wss://1.2.3.4:443");
    assert_eq!(url_at_host(&url("wss://0.0.0.0/x"), "1.2.3.4"), "wss://1.2.3.4:443/x");
    assert_eq!(
        url_at_host(&url("ws://0.0.0.0:65535/a/b?q"), "1.2.3.4"),
        "ws://1.2.3.4:65535/a/b"
    );
}

#[test]
fn a_wildcard_without_interfaces_is_not_announced() {
    let urls = vec![url("tcp://0.0.0.0:1"), url("udp://[::]:2"), url("tcp://a:3")];
    let got = connectable_listeners(&urls, &vec![], &vec![]);
    assert_eq!(got, strings(&["tcp://a:3"]));
    let got = connectable_listeners(&urls, &vec![], &strings(&["fe80::1", "fe80::2"]));
    assert_eq!(got, strings(&["udp://[fe80::1]:2", "udp://[fe80::2]:2", "tcp://a:3"]));
}

#[test]
fn announcing_in_turn_is_announcing_together() {
    let v4 = strings(&["1.1.1.1", "2.2.2.2"]);
    let a = vec![url("tcp://0.0.0.0:1")];
    let b = vec![url("udp://0.0.0.0:2"), url("tcp://x:3")];
    let both = vec![url("tcp://0.0.0.0:1"), url("udp://0.0.0.0:2"), url("tcp://x:3")];
    let mut turns = connectable_listeners(&a, &v4, &vec![]);
    turns.extend(connectable_listeners(&b, &v4, &vec![]));
    assert_eq!(connectable_listeners(&both, &v4, &vec![]), turns);
}

#[test]
fn numbers_in_decimal() {
    assert_eq!(decimal_text(0), "0");
    assert_eq!(decimal_text(9), "9");
    assert_eq!(decimal_text(10), "10");
    assert_eq!(decimal_text(55301), "55301");
    assert_eq!(decimal_text(1234567890), "1234567890");
    assert_eq!(decimal_text(4294967295), "4294967295");
}

#[test]
fn a_default_port_is_a_port() {
    assert_eq!(url("ws://h:80").effective_port(), Some(80));
    assert_eq!(url("http://h").effective_port(), Some(80));
    assert_eq!(url("wss://h").effective_port(), Some(443));
    assert_eq!(url("https://h:443").effective_port(), Some(443));
    assert_eq!(url("ftp://h").effective_port(), Some(21));
    assert_eq!(url("wss://h:80").effective_port(), Some(80));
    assert_eq!(url("tcp://h:9").effective_port(), Some(9));
    assert_eq!(url("tcp://h").effective_port(), None);
    assert!(DiscoveryManager::same_host_port(&url("tcp://h:80"), "ws://h:80"));
    assert!(DiscoveryManager::same_host_port(&url("wss://h"), "tcp://h:443"));
    assert!(!DiscoveryManager::same_host_port(&url("ws://h"), "wss://h"));
    assert!(!DiscoveryManager::same_host_port(&url("ws://h"), "tcp://h"));
    assert!(DiscoveryManager::same_host_port(&url("tcp://h"), "udp://h"));
}

#[test]
fn sharing_an_endpoint_is_an_equivalence() {
    let texts = ["tcp://10.0.0.1:5", "ws://10.0.0.1:5/x", "wg://10.0.0.1:5", "udp://10.0.0.2:5"];
    let matches = |a: usize, b: usize| DiscoveryManager::same_host_port(&url(texts[a]), texts[b]);
    for a in 0..4 {
        assert!(matches(a, a));
        for b in 0..4 {
            assert_eq!(matches(a, b), matches(b, a));
            assert_eq!(matches(a, b), (a < 3) == (b < 3));
        }
    }
}

#[test]
fn more_listeners_recognise_more() {
    let mut ctx = mock_global_ctx();
    ctx.running_listeners = vec![url("tcp://10.0.0.1:11010")];
    assert!(DiscoveryManager::is_our_listener("ws://10.0.0.1:11010", &ctx));
    assert!(!DiscoveryManager::is_our_listener("ws://10.0.0.1:11011", &ctx));
    ctx.running_listeners.insert(0, url("ws://10.0.0.1:11011"));
    assert!(DiscoveryManager::is_our_listener("ws://10.0.0.1:11010", &ctx));
    assert!(DiscoveryManager::is_our_listener("tcp://10.0.0.1:11011", &ctx));
}

#[test]
fn interfaces_are_needed_for_wildcards_only() {
    let urls = vec![url("tcp://a:1"), url("udp://0.0.0.0:2")];
    assert_eq!(connectable_listeners(&urls, &strings(&["1.1.1.1"]), &vec![]).len(), 2);
    let urls = vec![url("tcp://a:1"), url("ring://some-uuid")];
    assert_eq!(connectable_listeners(&urls, &vec![], &vec![]).len(), 2);
}
