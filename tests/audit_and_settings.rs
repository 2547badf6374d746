use proxyboy::audit::{audit_record, join_pairs};
use proxyboy::settings::{database_url, server_addr, store_path};

fn pairs(items: &[(&str, &str)]) -> Vec<(String, String)> {
    items.iter().map(|(k, v)| (k.to_string(), v.to_string())).collect()
}

#[test]
fn audit_record_joins_params_and_headers() {
    let log = audit_record(
        "POST",
        "api/x",
        &pairs(&[("a", "1"), ("b", "2")]),
        "{}",
        &pairs(&[("host", "localhost"), ("accept", "*/*")]),
    );
    assert_eq!(log.request_method, "POST");
    assert_eq!(log.request_url, "api/x");
    assert_eq!(log.request_params, "a: 1, b: 2");
    assert_eq!(log.request_body, "{}");
    assert_eq!(log.request_headers, "host: localhost\naccept: */*");
}

#[test]
fn join_pairs_edge_cases() {
    assert_eq!(join_pairs(&Vec::new(), ", "), "");
    assert_eq!(join_pairs(&pairs(&[("k", "")]), ", "), "k: ");
}

#[test]
fn settings_defaults() {
    assert_eq!(database_url(None, "/srv"), "/srv/database.db");
    assert_eq!(database_url(Some("x.db".to_string()), "/srv"), "x.db");
    assert_eq!(server_addr(None), "0.0.0.0:3000");
    assert_eq!(server_addr(Some("127.0.0.1:80".to_string())), "127.0.0.1:80");
    assert_eq!(store_path(None), "store");
    assert_eq!(store_path(Some("fixtures".to_string())), "fixtures");
}
