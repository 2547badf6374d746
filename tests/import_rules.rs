use proxyboy::import::{
    default_content_type, default_delay, default_enable, default_name, default_status_code,
    import_rules, method_list, progress_line, ImportError, RouterConfig,
};

fn route(method: &str, url: &str, file: &str) -> RouterConfig {
    RouterConfig {
        name: default_name(),
        enable: default_enable(),
        method: method.to_string(),
        url: url.to_string(),
        file: file.to_string(),
        status_code: default_status_code(),
        delay: default_delay(),
        content_type: default_content_type(),
    }
}

#[test]
fn import_expands_get_post_into_two_rules() {
    let rules = match import_rules(&vec![route("GET,POST", "/a", "/a.json")]) {
        Ok(v) => v,
        Err(_) => panic!("import refused"),
    };
    assert_eq!(rules.len(), 2);
    assert_eq!(rules[0].request_method, "GET");
    assert_eq!(rules[1].request_method, "POST");
    for r in &rules {
        assert_eq!(r.request_url, "/a");
        assert_eq!(r.response_file_path, "/a.json");
        assert_eq!(r.response_status_code, 200);
        assert_eq!(r.response_delay, 0);
        assert_eq!(r.response_content_type, "application/json");
        assert_eq!(r.name, "");
        assert!(r.is_enable);
    }
}

#[test]
fn method_tokens_are_trimmed_and_uppercased() {
    assert_eq!(method_list(" get , Post ,delete"), vec!["GET", "POST", "DELETE"]);
    assert_eq!(method_list("patch"), vec!["PATCH"]);
}

#[test]
fn wildcard_method_is_kept() {
    assert_eq!(method_list("*"), vec!["*"]);
}

#[test]
fn declaration_order_then_method_order() {
    let rules = match import_rules(&vec![route("put,get", "/x", "/x.json"), route("POST", "/y", "/y.json")]) {
        Ok(v) => v,
        Err(_) => panic!("import refused"),
    };
    let got: Vec<(String, String)> =
        rules.iter().map(|r| (r.request_method.clone(), r.request_url.clone())).collect();
    assert_eq!(
        got,
        vec![
            ("PUT".to_string(), "/x".to_string()),
            ("GET".to_string(), "/x".to_string()),
            ("POST".to_string(), "/y".to_string())
        ]
    );
}

#[test]
fn invalid_status_and_negative_delay_are_normalised() {
    let mut r = route("GET", "/a", "/a.json");
    r.status_code = 700;
    r.delay = -5;
    let mut ok = route("GET", "/b", "/b.json");
    ok.status_code = 404;
    ok.delay = 250;
    let rules = match import_rules(&vec![r, ok]) {
        Ok(v) => v,
        Err(_) => panic!("import refused"),
    };
    assert_eq!(rules[0].response_status_code, 200);
    assert_eq!(rules[0].response_delay, 0);
    assert_eq!(rules[1].response_status_code, 404);
    assert_eq!(rules[1].response_delay, 250);
}

#[test]
fn empty_file_is_refused() {
    let routes = vec![route("GET", "/a", "/a.json"), route("GET", "/b", "")];
    assert!(matches!(import_rules(&routes), Err(ImportError::EmptyFile(1))));
}

#[test]
fn empty_method_token_is_refused() {
    let routes = vec![route("GET,,POST", "/a", "/a.json"), route("GET", "/b", "")];
    assert!(matches!(import_rules(&routes), Err(ImportError::EmptyMethod(0))));
}

#[test]
fn progress_line_names_method_url_and_file() {
    let rules = match import_rules(&vec![route("get", "/a", "/a.json")]) {
        Ok(v) => v,
        Err(_) => panic!("import refused"),
    };
    assert_eq!(progress_line(&rules[0]), "Imported mock: GET /a -> /a.json");
}
