//! Turning a matched rule into a response, and errors into HTTP answers.
use vstd::prelude::*;
use crate::matcher::{find_index, is_first_match, has_match};
use crate::models::{Mock, RuleModel, models};
use crate::text::{ends_with, str_ends_with};

verus! {

/// Status codes accepted as they are; any other is answered as 200.
pub open spec fn effective_status(code: i32) -> u16 {
    if 100 <= code <= 599 {
        code as u16
    } else {
        200
    }
}

/// Milliseconds to wait before answering; a negative delay is none.
pub open spec fn effective_delay(delay: i32) -> u64 {
    if delay > 0 {
        delay as u64
    } else {
        0
    }
}

/// What a response plan holds.
pub ghost struct PlanModel {
    pub file: Seq<char>,
    pub delay_ms: u64,
    pub status: u16,
    pub content_type: Seq<char>,
}

/// The plan for answering with `rule`, files being looked up under `root`.
pub open spec fn plan_model(rule: RuleModel, root: Seq<char>) -> PlanModel {
    PlanModel {
        file: root + rule.file,
        delay_ms: effective_delay(rule.delay),
        status: effective_status(rule.status),
        content_type: rule.content_type,
    }
}

/// The plan for a request: that of the first rule that accepts it, or `None`.
pub open spec fn resolve(
    rules: Seq<RuleModel>,
    method: Seq<char>,
    path: Seq<char>,
    root: Seq<char>,
) -> Option<PlanModel> {
    if exists|k: int| is_first_match(rules, k, method, path) {
        let k = choose|k: int| is_first_match(rules, k, method, path);
        Some(plan_model(rules[k], root))
    } else {
        None
    }
}

/// At most one rule is the first to accept a request.
pub proof fn lemma_first_match_unique(
    rules: Seq<RuleModel>,
    k1: int,
    k2: int,
    method: Seq<char>,
    path: Seq<char>,
)
    requires
        is_first_match(rules, k1, method, path),
        is_first_match(rules, k2, method, path),
    ensures
        k1 == k2,
{
    if k1 < k2 {
        assert(!crate::matcher::rule_matches(rules[k1], method, path));
    }
    if k2 < k1 {
        assert(!crate::matcher::rule_matches(rules[k2], method, path));
    }
}

/// When rule `k` is the first to accept a request, the request resolves to
/// its plan.
pub proof fn lemma_resolve_first(
    rules: Seq<RuleModel>,
    k: int,
    method: Seq<char>,
    path: Seq<char>,
    root: Seq<char>,
)
    requires
        is_first_match(rules, k, method, path),
    ensures
        resolve(rules, method, path, root) == Some(plan_model(rules[k], root)),
{
    let c = choose|c: int| is_first_match(rules, c, method, path);
    lemma_first_match_unique(rules, k, c, method, path);
}

/// Without any accepting rule a request resolves to nothing.
pub proof fn lemma_resolve_none(rules: Seq<RuleModel>, method: Seq<char>, path: Seq<char>, root: Seq<char>)
    requires
        !has_match(rules, method, path),
    ensures
        resolve(rules, method, path, root) is None,
{
    if exists|k: int| is_first_match(rules, k, method, path) {
        let k = choose|k: int| is_first_match(rules, k, method, path);
        assert(crate::matcher::rule_matches(rules[k], method, path));
    }
}

/// How to answer a matched request: the file to read, the wait, the status
/// and the content type.
pub struct ResponsePlan {
    pub file_path: String,
    pub delay_ms: u64,
    pub status_code: u16,
    pub content_type: String,
}

impl View for ResponsePlan {
    type V = PlanModel;

    open spec fn view(&self) -> PlanModel {
        PlanModel {
            file: self.file_path@,
            delay_ms: self.delay_ms,
            status: self.status_code,
            content_type: self.content_type@,
        }
    }
}

/// A finished response.
pub struct Response {
    pub status_code: u16,
    pub content_type: String,
    pub body: String,
}

/// Why a request could not be answered from a rule.
pub enum ApiError {
    /// The response file could not be read; holds the reason.
    FileReadError(String),
    /// No rule accepts the request.
    RouteNotFound,
}

/// The HTTP status of an error.
pub open spec fn error_status(e: ApiError) -> u16 {
    match e {
        ApiError::FileReadError(_) => 500,
        ApiError::RouteNotFound => 404,
    }
}

/// The plain-text body of an error.
pub open spec fn error_message(e: ApiError) -> Seq<char> {
    match e {
        ApiError::FileReadError(reason) => "Response file error : "@ + reason@,
        ApiError::RouteNotFound => "Route not found"@,
    }
}

impl ApiError {
    /// The HTTP status that answers this error.
    pub fn status_code(&self) -> (r: u16)
        ensures
            r == error_status(*self),
    {
        match self {
            ApiError::FileReadError(_) => 500,
            ApiError::RouteNotFound => 404,
        }
    }

    /// The plain-text body that answers this error.
    pub fn message(&self) -> (r: String)
        ensures
            r@ == error_message(*self),
    {
        match self {
            ApiError::FileReadError(reason) => {
                let s = String::from_str("Response file error : ");
                s.concat(reason.as_str())
            },
            ApiError::RouteNotFound => String::from_str("Route not found"),
        }
    }
}

/// The status code to answer with: `code` when it is a valid HTTP status
/// (100 to 599), else 200.
pub fn status_or_ok(code: i32) -> (r: u16)
    ensures
        r == effective_status(code),
{
    if 100 <= code && code <= 599 {
        code as u16
    } else {
        200
    }
}

/// A response file under a mode: `name.json` becomes `name_{mode}.json`;
/// other files are left as they are.
pub open spec fn with_mode(file: Seq<char>, mode: Seq<char>) -> Seq<char> {
    if ends_with(file, ".json"@) {
        file.subrange(0, file.len() - ".json"@.len()) + "_"@ + mode + ".json"@
    } else {
        file
    }
}

/// The response file to use under `mode`, which selects between alternate
/// fixtures of one rule.
pub fn mode_file_path(file: &str, mode: &str) -> (r: String)
    ensures
        r@ == with_mode(file@, mode@),
{
    if str_ends_with(file, ".json") {
        let cut = file.unicode_len() - ".json".unicode_len();
        let mut s = String::from_str(file.substring_char(0, cut));
        s.append("_");
        s.append(mode);
        s.append(".json");
        s
    } else {
        String::from_str(file)
    }
}

/// The plan for answering with `rule`, its file being looked up under
/// `store_path` (the two are joined as they are).
pub fn build_response(rule: &Mock, store_path: &str) -> (r: ResponsePlan)
    ensures
        r@ == plan_model(rule@, store_path@),
{
    let file_path = String::from_str(store_path).concat(rule.response_file_path.as_str());
    let delay_ms: u64 = if rule.response_delay > 0 {
        rule.response_delay as u64
    } else {
        0
    };
    ResponsePlan {
        file_path,
        delay_ms,
        status_code: status_or_ok(rule.response_status_code),
        content_type: rule.response_content_type.clone(),
    }
}

/// Resolves a request against the rules in store order: the plan of the
/// first rule that accepts it, or `RouteNotFound`, in which case no file is
/// to be read.
pub fn plan_response(rules: &Vec<Mock>, method: &str, path: &str, store_path: &str) -> (r: Result<
    ResponsePlan,
    ApiError,
>)
    ensures
        match r {
            Ok(plan) => resolve(models(rules@), method@, path@, store_path@) == Some(plan@),
            Err(e) => resolve(models(rules@), method@, path@, store_path@) is None
                && e is RouteNotFound,
        },
{
    match find_index(rules, method, path) {
        Some(k) => {
            proof {
                lemma_resolve_first(models(rules@), k as int, method@, path@, store_path@);
            }
            Ok(build_response(&rules[k], store_path))
        },
        None => {
            proof {
                lemma_resolve_none(models(rules@), method@, path@, store_path@);
            }
            Err(ApiError::RouteNotFound)
        },
    }
}

/// Completes a plan with the outcome of reading its file: the body, or the
/// read failure's reason as `FileReadError`.
pub fn finish_response(plan: ResponsePlan, body: Result<String, String>) -> (r: Result<
    Response,
    ApiError,
>)
    ensures
        match body {
            Ok(b) => r matches Ok(resp) && resp.status_code == plan.status_code
                && resp.content_type@ == plan.content_type@ && resp.body@ == b@,
            Err(reason) => r matches Err(ApiError::FileReadError(e)) && e@ == reason@,
        },
{
    match body {
        Ok(b) => Ok(Response { status_code: plan.status_code, content_type: plan.content_type, body: b }),
        Err(reason) => Err(ApiError::FileReadError(reason)),
    }
}

} // verus!
