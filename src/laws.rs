//! Facts that relate matching, resolving and importing.
use vstd::prelude::*;
use crate::import::{RouterConfig, expand, expand_all, method_tokens, rule_for};
use crate::matcher::{has_match, is_first_match, method_matches, path_matches, rule_matches, wildcard};
use crate::models::RuleModel;
use crate::response::{
    ApiError, PlanModel, effective_delay, effective_status, error_status, lemma_resolve_first,
    lemma_resolve_none, plan_model, resolve,
};
use crate::text::{ends_with, eq_ignore_case, strip_slash};

verus! {

/// Whether a declaration accepts a request: it is enabled, its URL pattern
/// accepts the path, and one of its method patterns accepts the method.
pub open spec fn route_accepts(r: RouterConfig, method: Seq<char>, path: Seq<char>) -> bool {
    &&& r.enable
    &&& path_matches(r.url@, path)
    &&& exists|i: int|
        0 <= i < method_tokens(r.method@).len() && method_matches(
            #[trigger] method_tokens(r.method@)[i],
            method,
        )
}

/// The plan for answering with a declaration's response.
pub open spec fn route_plan(r: RouterConfig, root: Seq<char>) -> PlanModel {
    PlanModel {
        file: root + r.file@,
        delay_ms: effective_delay(r.delay),
        status: effective_status(r.status_code),
        content_type: r.content_type@,
    }
}

/// The response that a configuration document declares for a request: that
/// of the first declaration that accepts it.
pub open spec fn config_resolve(
    routes: Seq<RouterConfig>,
    method: Seq<char>,
    path: Seq<char>,
    root: Seq<char>,
) -> Option<PlanModel>
    decreases routes.len(),
{
    if routes.len() == 0 {
        None
    } else {
        let prev = config_resolve(routes.drop_last(), method, path, root);
        if prev is Some {
            prev
        } else if route_accepts(routes.last(), method, path) {
            Some(route_plan(routes.last(), root))
        } else {
            None
        }
    }
}

/// When some rule accepts a request, one of them is the first.
pub proof fn lemma_first_match_exists(rules: Seq<RuleModel>, method: Seq<char>, path: Seq<char>)
    requires
        has_match(rules, method, path),
    ensures
        exists|k: int| is_first_match(rules, k, method, path),
    decreases rules.len(),
{
    let init = rules.drop_last();
    if has_match(init, method, path) {
        lemma_first_match_exists(init, method, path);
        let k = choose|k: int| is_first_match(init, k, method, path);
        assert(forall|j: int| 0 <= j < k ==> init[j] == rules[j]);
        assert(is_first_match(rules, k, method, path));
    } else {
        let k = rules.len() - 1;
        assert forall|j: int| 0 <= j < k implies !rule_matches(#[trigger] rules[j], method, path) by {
            assert(init[j] == rules[j]);
        }
        assert(is_first_match(rules, k, method, path));
    }
}

/// A request resolves to a plan exactly when some rule accepts it.
pub proof fn lemma_resolve_some_iff(
    rules: Seq<RuleModel>,
    method: Seq<char>,
    path: Seq<char>,
    root: Seq<char>,
)
    ensures
        resolve(rules, method, path, root) is Some <==> has_match(rules, method, path),
{
    if has_match(rules, method, path) {
        lemma_first_match_exists(rules, method, path);
    } else {
        lemma_resolve_none(rules, method, path, root);
    }
}

/// Rules placed after others are consulted only when none of those accepts
/// the request.
pub proof fn lemma_resolve_concat(
    a: Seq<RuleModel>,
    b: Seq<RuleModel>,
    method: Seq<char>,
    path: Seq<char>,
    root: Seq<char>,
)
    ensures
        resolve(a + b, method, path, root) == if resolve(a, method, path, root) is Some {
            resolve(a, method, path, root)
        } else {
            resolve(b, method, path, root)
        },
{
    let ab = a + b;
    lemma_resolve_some_iff(a, method, path, root);
    lemma_resolve_some_iff(b, method, path, root);
    if has_match(a, method, path) {
        lemma_first_match_exists(a, method, path);
        let k = choose|k: int| is_first_match(a, k, method, path);
        assert(forall|j: int| 0 <= j < a.len() ==> ab[j] == a[j]);
        assert(is_first_match(ab, k, method, path));
        lemma_resolve_first(a, k, method, path, root);
        lemma_resolve_first(ab, k, method, path, root);
    } else if has_match(b, method, path) {
        lemma_first_match_exists(b, method, path);
        let k = choose|k: int| is_first_match(b, k, method, path);
        assert(ab[a.len() + k] == b[k]);
        assert forall|j: int| 0 <= j < a.len() + k implies !rule_matches(#[trigger] ab[j], method, path) by {
            if j < a.len() {
                assert(ab[j] == a[j]);
            } else {
                assert(ab[j] == b[j - a.len()]);
            }
        }
        assert(is_first_match(ab, a.len() + k, method, path));
        lemma_resolve_first(b, k, method, path, root);
        lemma_resolve_first(ab, a.len() + k, method, path, root);
    } else {
        assert forall|j: int| 0 <= j < ab.len() implies !rule_matches(#[trigger] ab[j], method, path) by {
            if j < a.len() {
                assert(ab[j] == a[j]);
            } else {
                assert(ab[j] == b[j - a.len()]);
            }
        }
        lemma_resolve_none(ab, method, path, root);
    }
}

/// The rules of one declaration answer a request as the declaration does.
pub proof fn lemma_expand_resolves(r: RouterConfig, method: Seq<char>, path: Seq<char>, root: Seq<char>)
    ensures
        resolve(expand(r), method, path, root) == if route_accepts(r, method, path) {
            Some(route_plan(r, root))
        } else {
            None
        },
{
    let rules = expand(r);
    let toks = method_tokens(r.method@);
    assert forall|i: int| 0 <= i < rules.len() implies #[trigger] rules[i] == rule_for(r, toks[i]) by {}
    lemma_resolve_some_iff(rules, method, path, root);
    if route_accepts(r, method, path) {
        let i = choose|i: int| 0 <= i < toks.len() && method_matches(#[trigger] toks[i], method);
        assert(rule_matches(rules[i], method, path));
        lemma_first_match_exists(rules, method, path);
        let k = choose|k: int| is_first_match(rules, k, method, path);
        lemma_resolve_first(rules, k, method, path, root);
        assert(plan_model(rules[k], root) == route_plan(r, root));
    } else {
        assert forall|j: int| 0 <= j < rules.len() implies !rule_matches(#[trigger] rules[j], method, path) by {
            if rule_matches(rules[j], method, path) {
                assert(method_matches(toks[j], method));
            }
        }
    }
}

/// Importing a configuration and then matching against the stored rules
/// gives, for every request, the response that the configuration declares
/// for it: that of the first declaration whose URL and one of whose methods
/// accept the request.
pub proof fn lemma_import_round_trip(
    routes: Seq<RouterConfig>,
    method: Seq<char>,
    path: Seq<char>,
    root: Seq<char>,
)
    ensures
        resolve(expand_all(routes), method, path, root) == config_resolve(routes, method, path, root),
    decreases routes.len(),
{
    if routes.len() == 0 {
        lemma_resolve_none(expand_all(routes), method, path, root);
    } else {
        let init = routes.drop_last();
        lemma_import_round_trip(init, method, path, root);
        lemma_resolve_concat(expand_all(init), expand(routes.last()), method, path, root);
        lemma_expand_resolves(routes.last(), method, path, root);
    }
}

/// An enabled rule whose method is exactly the request's and whose URL
/// pattern ends the request path answers the request, unless a rule before
/// it accepts the request too.
pub proof fn lemma_exact_request_resolves(
    rules: Seq<RuleModel>,
    i: int,
    method: Seq<char>,
    path: Seq<char>,
    root: Seq<char>,
)
    requires
        0 <= i < rules.len(),
        rules[i].enabled,
        method == rules[i].method,
        ends_with(path, rules[i].url),
        forall|j: int| 0 <= j < i ==> !rule_matches(#[trigger] rules[j], method, path),
    ensures
        resolve(rules, method, path, root) == Some(plan_model(rules[i], root)),
{
    let url = rules[i].url;
    assert(eq_ignore_case(method, method));
    let sp = strip_slash(path);
    let su = strip_slash(url);
    let tail = path.subrange(path.len() - url.len(), path.len() as int);
    assert(tail == url);
    if url.len() > 0 && url[0] == '/' {
        assert(path.len() - url.len() >= 0);
        assert(path[path.len() - url.len()] == '/');
    } else if path.len() > 0 && path[0] == '/' && url.len() == path.len() {
        assert(url[0] == path[0]);
    }
    assert(sp.subrange(sp.len() - su.len(), sp.len() as int) =~= su);
    assert(rule_matches(rules[i], method, path));
    lemma_resolve_first(rules, i, method, path, root);
}

/// A disabled rule is never the one that answers a request.
pub proof fn lemma_disabled_never_answers(rules: Seq<RuleModel>, k: int, method: Seq<char>, path: Seq<char>)
    requires
        0 <= k < rules.len(),
        !rules[k].enabled,
    ensures
        !is_first_match(rules, k, method, path),
{
}

/// The method pattern `*` accepts every method.
pub proof fn lemma_wildcard_accepts_any_method(rule: RuleModel, method: Seq<char>, path: Seq<char>)
    requires
        rule.method == wildcard(),
    ensures
        method_matches(rule.method, method),
        rule.enabled && path_matches(rule.url, path) ==> rule_matches(rule, method, path),
{
}

/// A request that no rule accepts resolves to nothing, and is answered with
/// status 404.
pub proof fn lemma_unmatched_is_not_found(
    rules: Seq<RuleModel>,
    method: Seq<char>,
    path: Seq<char>,
    root: Seq<char>,
)
    requires
        !has_match(rules, method, path),
    ensures
        resolve(rules, method, path, root) is None,
        error_status(ApiError::RouteNotFound) == 404,
{
    lemma_resolve_none(rules, method, path, root);
}

} // verus!
