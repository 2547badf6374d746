//! Selection of the first enabled rule that accepts a request.
use vstd::prelude::*;
use crate::models::{Mock, RuleModel, models};
use crate::text::{
    ends_with, eq_ignore_case, strip_slash, str_ends_with, str_eq_ignore_case, strip_leading_slash,
};

verus! {

/// The method pattern that accepts every method.
pub open spec fn wildcard() -> Seq<char> {
    seq!['*']
}

/// A rule's method pattern accepts the request method.
pub open spec fn method_matches(pattern: Seq<char>, method: Seq<char>) -> bool {
    pattern == wildcard() || eq_ignore_case(pattern, method)
}

/// The request path, without its leading `/`, ends with the rule's URL
/// pattern, without its leading `/`.
pub open spec fn path_matches(url_pattern: Seq<char>, path: Seq<char>) -> bool {
    ends_with(strip_slash(path), strip_slash(url_pattern))
}

/// The rule accepts a request with this method and path.
pub open spec fn rule_matches(rule: RuleModel, method: Seq<char>, path: Seq<char>) -> bool {
    rule.enabled && method_matches(rule.method, method) && path_matches(rule.url, path)
}

/// Rule `k` accepts the request and no rule before it does.
pub open spec fn is_first_match(
    rules: Seq<RuleModel>,
    k: int,
    method: Seq<char>,
    path: Seq<char>,
) -> bool {
    &&& 0 <= k < rules.len()
    &&& rule_matches(rules[k], method, path)
    &&& forall|j: int| 0 <= j < k ==> !rule_matches(#[trigger] rules[j], method, path)
}

/// Some rule accepts the request.
pub open spec fn has_match(rules: Seq<RuleModel>, method: Seq<char>, path: Seq<char>) -> bool {
    exists|k: int| 0 <= k < rules.len() && rule_matches(#[trigger] rules[k], method, path)
}

/// Whether the rule pattern accepts the request method.
pub fn method_pattern_matches(pattern: &str, method: &str) -> (r: bool)
    ensures
        r == method_matches(pattern@, method@),
{
    let n = pattern.unicode_len();
    if n == 1 && pattern.get_char(0) == '*' {
        assert(pattern@ =~= wildcard());
        return true;
    }
    assert(pattern@ != wildcard()) by {
        if pattern@ == wildcard() {
            assert(pattern@[0] == '*');
        }
    }
    str_eq_ignore_case(pattern, method)
}

/// Whether the rule's URL pattern accepts the request path.
pub fn url_pattern_matches(url_pattern: &str, path: &str) -> (r: bool)
    ensures
        r == path_matches(url_pattern@, path@),
{
    str_ends_with(strip_leading_slash(path), strip_leading_slash(url_pattern))
}

/// Whether the rule accepts the request.
pub fn mock_matches(rule: &Mock, method: &str, path: &str) -> (r: bool)
    ensures
        r == rule_matches(rule@, method@, path@),
{
    rule.is_enable && method_pattern_matches(rule.request_method.as_str(), method)
        && url_pattern_matches(rule.request_url.as_str(), path)
}

/// The position of the first rule, in store order, that accepts the request.
pub fn find_index(rules: &Vec<Mock>, method: &str, path: &str) -> (r: Option<usize>)
    ensures
        match r {
            Some(k) => is_first_match(models(rules@), k as int, method@, path@),
            None => !has_match(models(rules@), method@, path@),
        },
{
    let mut i: usize = 0;
    while i < rules.len()
        invariant
            i <= rules@.len(),
            forall|j: int| 0 <= j < i ==> !rule_matches(#[trigger] models(rules@)[j], method@, path@),
        decreases rules@.len() - i,
    {
        if mock_matches(&rules[i], method, path) {
            return Some(i);
        }
        i = i + 1;
    }
    None
}

impl Mock {
    /// The first rule, in store order, that accepts a request with this method
    /// and path; `None` when no rule does.
    pub fn find_by_method_and_url(method: &str, url: &str, rules: &Vec<Mock>) -> (r: Option<Mock>)
        ensures
            match r {
                Some(m) => exists|k: int|
                    is_first_match(models(rules@), k, method@, url@) && m@ == rules@[k]@ && m.id
                        == rules@[k].id,
                None => !has_match(models(rules@), method@, url@),
            },
    {
        match find_index(rules, method, url) {
            Some(k) => Some(rules[k].duplicate()),
            None => None,
        }
    }
}

} // verus!
