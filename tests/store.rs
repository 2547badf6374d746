use proxyboy::import::{import_rules, ImportError, RouterConfig};
use proxyboy::response::plan_response;
use proxyboy::store::{import_config, MockStore};

fn route(method: &str, url: &str, file: &str, enable: bool) -> RouterConfig {
    RouterConfig {
        name: "r".to_string(),
        enable,
        method: method.to_string(),
        url: url.to_string(),
        file: file.to_string(),
        status_code: 200,
        delay: 0,
        content_type: "application/json".to_string(),
    }
}

#[test]
fn replace_all_numbers_rules_in_order() {
    let mut store = MockStore::new();
    let rules = import_rules(&vec![route("GET,POST", "/a", "/a.json", true), route("PUT", "/b", "/b.json", false)])
        .ok()
        .expect("valid");
    assert!(store.replace_all(rules).is_ok());
    let rows = store.rows();
    assert_eq!(rows.len(), 3);
    for (i, r) in rows.iter().enumerate() {
        assert_eq!(r.id, i as i32 + 1);
    }
    assert_eq!(store.id_at(2), 3);
    let enabled = store.list_enabled();
    assert_eq!(enabled.len(), 2);
    assert_eq!(enabled[0].request_method, "GET");
    assert_eq!(enabled[1].request_method, "POST");
}

#[test]
fn replace_all_clears_previous_rules() {
    let mut store = MockStore::new();
    assert!(import_config(&vec![route("GET", "/old", "/old.json", true)], &mut store).is_ok());
    assert!(import_config(&vec![route("GET", "/new", "/new.json", true)], &mut store).is_ok());
    assert_eq!(store.rows().len(), 1);
    assert!(store.find("GET", "/old").is_none());
    assert_eq!(store.find("GET", "/new").expect("a match").id, 1);
}

#[test]
fn failed_import_leaves_store_unchanged() {
    let mut store = MockStore::new();
    assert!(import_config(&vec![route("GET", "/a", "/a.json", true)], &mut store).is_ok());
    let bad = vec![route("GET", "/b", "/b.json", true), route("POST", "/c", "", true)];
    assert!(matches!(import_config(&bad, &mut store), Err(ImportError::EmptyFile(1))));
    assert_eq!(store.rows().len(), 1);
    assert_eq!(store.rows()[0].request_url, "/a");
    assert!(store.find("GET", "/b").is_none());
}

#[test]
fn import_then_match_follows_the_configuration() {
    let mut store = MockStore::new();
    let routes = vec![
        route("GET,POST", "/a", "/a.json", true),
        route("*", "/a", "/any.json", true),
        route("DELETE", "/off", "/off.json", false),
        route("get", "/b", "/b.json", true),
    ];
    assert!(import_config(&routes, &mut store).is_ok());
    let cases = [
        ("GET", "/a", Some("store/a.json")),
        ("POST", "/a", Some("store/a.json")),
        ("PUT", "/a", Some("store/any.json")),
        ("DELETE", "/off", None),
        ("GET", "/b", Some("store/b.json")),
        ("POST", "/b", None),
        ("GET", "/c", None),
    ];
    for (method, path, want) in cases {
        let got = plan_response(store.rows(), method, path, "store").ok().map(|p| p.file_path);
        assert_eq!(got.as_deref(), want, "{} {}", method, path);
    }
}

#[test]
fn new_store_is_empty() {
    let store = MockStore::new();
    assert!(store.rows().is_empty());
    assert!(store.list_enabled().is_empty());
    assert!(store.find("GET", "/").is_none());
}
