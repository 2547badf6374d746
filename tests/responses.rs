use proxyboy::models::Mock;
use proxyboy::response::{
    build_response, finish_response, mode_file_path, plan_response, status_or_ok, ApiError,
};

fn mock(method: &str, url: &str, file: &str, status: i32, delay: i32) -> Mock {
    Mock {
        id: 1,
        name: "n".to_string(),
        is_enable: true,
        request_method: method.to_string(),
        request_url: url.to_string(),
        response_file_path: file.to_string(),
        response_status_code: status,
        response_delay: delay,
        response_content_type: "text/plain".to_string(),
    }
}

#[test]
fn plan_joins_root_and_file() {
    let plan = build_response(&mock("GET", "/a", "/a.json", 201, 100), "store");
    assert_eq!(plan.file_path, "store/a.json");
    assert_eq!(plan.delay_ms, 100);
    assert_eq!(plan.status_code, 201);
    assert_eq!(plan.content_type, "text/plain");
}

#[test]
fn status_outside_range_falls_back_to_ok() {
    assert_eq!(status_or_ok(100), 100);
    assert_eq!(status_or_ok(599), 599);
    assert_eq!(status_or_ok(99), 200);
    assert_eq!(status_or_ok(600), 200);
    assert_eq!(status_or_ok(-404), 200);
    assert_eq!(build_response(&mock("GET", "/a", "/a", 1000, -3), "").status_code, 200);
    assert_eq!(build_response(&mock("GET", "/a", "/a", 1000, -3), "").delay_ms, 0);
}

#[test]
fn unmatched_request_is_not_found_without_a_plan() {
    let rules = vec![mock("GET", "/a", "/a.json", 200, 0)];
    match plan_response(&rules, "GET", "/missing", "store") {
        Err(e) => {
            assert!(matches!(e, ApiError::RouteNotFound));
            assert_eq!(e.status_code(), 404);
            assert_eq!(e.message(), "Route not found");
        }
        Ok(_) => panic!("expected no match"),
    }
}

#[test]
fn matched_request_gets_rule_response() {
    let rules = vec![mock("GET", "/b", "/b.json", 200, 0), mock("POST", "/a", "/a.json", 418, 5)];
    let plan = match plan_response(&rules, "POST", "/x/a", "root") {
        Ok(p) => p,
        Err(_) => panic!("expected a match"),
    };
    assert_eq!(plan.file_path, "root/a.json");
    assert_eq!(plan.status_code, 418);
    assert_eq!(plan.delay_ms, 5);
    assert_eq!(plan.content_type, "text/plain");
}

#[test]
fn finished_response_carries_body() {
    let plan = build_response(&mock("GET", "/a", "/a.json", 202, 0), "s");
    match finish_response(plan, Ok("{\"ok\":true}".to_string())) {
        Ok(r) => {
            assert_eq!(r.status_code, 202);
            assert_eq!(r.content_type, "text/plain");
            assert_eq!(r.body, "{\"ok\":true}");
        }
        Err(_) => panic!("expected a response"),
    }
}

#[test]
fn unreadable_file_is_a_server_error() {
    let plan = build_response(&mock("GET", "/a", "/a.json", 200, 0), "s");
    match finish_response(plan, Err("No such file".to_string())) {
        Err(e) => {
            assert!(matches!(e, ApiError::FileReadError(_)));
            assert_eq!(e.status_code(), 500);
            assert_eq!(e.message(), "Response file error : No such file");
        }
        Ok(_) => panic!("expected an error"),
    }
}

#[test]
fn mode_selects_alternate_fixture() {
    assert_eq!(mode_file_path("/user/login.json", "error"), "/user/login_error.json");
    assert_eq!(mode_file_path(".json", "x"), "_x.json");
    assert_eq!(mode_file_path("/user/login.txt", "error"), "/user/login.txt");
    assert_eq!(mode_file_path("json", "error"), "json");
}
