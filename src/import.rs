//! Expansion of route declarations into canonical rules.
use vstd::prelude::*;
use crate::matcher::wildcard;
use crate::models::{InsertMock, RuleModel};
use crate::response::{effective_status, status_or_ok};
use crate::text::{split_on, split_str, trim_of, trim_str, upper_of, uppercase};

verus! {

/// One route declaration of a configuration document.
pub struct RouterConfig {
    pub name: String,
    pub enable: bool,
    /// One method token, a comma-separated list of them, or `*`.
    pub method: String,
    pub url: String,
    pub file: String,
    pub status_code: i32,
    pub delay: i32,
    pub content_type: String,
}

/// Why an import was refused.
pub enum ImportError {
    /// The declaration at this position names no response file.
    EmptyFile(usize),
    /// The declaration at this position has a method token that is empty.
    EmptyMethod(usize),
    /// The rules do not fit the identifier space of the store.
    StoreFull,
}

/// The name a declaration gets when it has none.
pub fn default_name() -> (r: String)
    ensures
        r@.len() == 0,
{
    String::new()
}

/// Declarations are enabled unless they say otherwise.
pub fn default_enable() -> (r: bool)
    ensures
        r,
{
    true
}

/// The status code a declaration gets when it has none.
pub fn default_status_code() -> (r: i32)
    ensures
        r == 200,
{
    200
}

/// The delay a declaration gets when it has none.
pub fn default_delay() -> (r: i32)
    ensures
        r == 0,
{
    0
}

/// The content type a declaration gets when it has none.
pub fn default_content_type() -> (r: String)
    ensures
        r@ == "application/json"@,
{
    String::from_str("application/json")
}

/// The canonical method patterns of a declaration's `method` value: `*` as
/// it is, else each comma-separated token trimmed and upper-cased, in order.
pub open spec fn method_tokens(method: Seq<char>) -> Seq<Seq<char>> {
    if method == wildcard() {
        seq![wildcard()]
    } else {
        split_on(method, ',').map_values(|p: Seq<char>| upper_of(trim_of(p)))
    }
}

/// The rule that a declaration gives for one of its method patterns.
pub open spec fn rule_for(r: RouterConfig, method: Seq<char>) -> RuleModel {
    RuleModel {
        name: r.name@,
        enabled: r.enable,
        method,
        url: r.url@,
        file: r.file@,
        status: effective_status(r.status_code) as i32,
        delay: if r.delay > 0 {
            r.delay
        } else {
            0
        },
        content_type: r.content_type@,
    }
}

/// The rules of one declaration, one per method pattern.
pub open spec fn expand(r: RouterConfig) -> Seq<RuleModel> {
    method_tokens(r.method@).map_values(|t: Seq<char>| rule_for(r, t))
}

/// The rules of all declarations, in declaration order and then in the
/// order of each declaration's methods.
pub open spec fn expand_all(routes: Seq<RouterConfig>) -> Seq<RuleModel>
    decreases routes.len(),
{
    if routes.len() == 0 {
        Seq::empty()
    } else {
        expand_all(routes.drop_last()) + expand(routes.last())
    }
}

/// A declaration names a file and has no empty method token.
pub open spec fn route_valid(r: RouterConfig) -> bool {
    r.file@.len() > 0 && methods_valid(method_tokens(r.method@))
}

/// Method patterns are all non-empty.
pub open spec fn methods_valid(methods: Seq<Seq<char>>) -> bool {
    forall|i: int| 0 <= i < methods.len() ==> (#[trigger] methods[i]).len() > 0
}

/// Declaration `i` is the first that is not valid.
pub open spec fn first_invalid(routes: Seq<RouterConfig>, i: int) -> bool {
    &&& 0 <= i < routes.len()
    &&& !route_valid(routes[i])
    &&& forall|j: int| 0 <= j < i ==> route_valid(#[trigger] routes[j])
}

/// Every declaration is valid.
pub open spec fn all_valid(routes: Seq<RouterConfig>) -> bool {
    forall|j: int| 0 <= j < routes.len() ==> route_valid(#[trigger] routes[j])
}

/// The canonical method patterns of a `method` value.
pub fn method_list(method: &str) -> (r: Vec<String>)
    ensures
        r@.map_values(|t: String| t@) == method_tokens(method@),
{
    let mut out: Vec<String> = Vec::new();
    if method.unicode_len() == 1 && method.get_char(0) == '*' {
        assert(method@ =~= wildcard());
        out.push(String::from_str(method));
        assert(out@.map_values(|t: String| t@) =~= seq![wildcard()]);
        return out;
    }
    assert(method@ != wildcard()) by {
        if method@ == wildcard() {
            assert(method@[0] == '*');
        }
    }
    let pieces = split_str(method, ',');
    let ghost spieces = pieces@.map_values(|p: String| p@);
    let mut i: usize = 0;
    while i < pieces.len()
        invariant
            i <= pieces@.len(),
            spieces == pieces@.map_values(|p: String| p@),
            out@.len() == i,
            forall|j: int| 0 <= j < i ==> (#[trigger] out@[j])@ == upper_of(trim_of(spieces[j])),
        decreases pieces@.len() - i,
    {
        let t = trim_str(pieces[i].as_str());
        let u = uppercase(t.as_str());
        out.push(u);
        i = i + 1;
    }
    assert(out@.map_values(|t: String| t@) =~= spieces.map_values(
        |p: Seq<char>| upper_of(trim_of(p)),
    ));
    out
}

/// The rules that a declaration gives for the method patterns `methods`, one
/// per pattern and in their order, or why it is refused; `index` is its
/// position in the document.
pub fn rules_for_methods(r: &RouterConfig, methods: &Vec<String>, index: usize) -> (res: Result<
    Vec<InsertMock>,
    ImportError,
>)
    ensures
        res is Ok <==> r.file@.len() > 0 && methods_valid(methods@.map_values(|t: String| t@)),
        res matches Ok(v) ==> v@.map_values(|m: InsertMock| m@) == methods@.map_values(
            |t: String| t@,
        ).map_values(|t: Seq<char>| rule_for(*r, t)),
        res matches Err(e) ==> (e matches ImportError::EmptyFile(i) && i == index && r.file@.len() == 0)
            || (e matches ImportError::EmptyMethod(i) && i == index && r.file@.len() > 0),
{
    if r.file.as_str().unicode_len() == 0 {
        return Err(ImportError::EmptyFile(index));
    }
    let ghost toks = methods@.map_values(|t: String| t@);
    let status = status_or_ok(r.status_code) as i32;
    let delay: i32 = if r.delay > 0 {
        r.delay
    } else {
        0
    };
    let mut out: Vec<InsertMock> = Vec::new();
    let mut i: usize = 0;
    while i < methods.len()
        invariant
            i <= methods@.len(),
            r.file@.len() > 0,
            toks == methods@.map_values(|t: String| t@),
            status == effective_status(r.status_code) as i32,
            delay == (if r.delay > 0 { r.delay } else { 0 }),
            out@.len() == i,
            forall|j: int| 0 <= j < i ==> (#[trigger] out@[j])@ == rule_for(*r, toks[j]),
            forall|j: int| 0 <= j < i ==> toks[j].len() > 0,
        decreases methods@.len() - i,
    {
        assert(methods@[i as int]@ == toks[i as int]);
        if methods[i].as_str().unicode_len() == 0 {
            assert(toks[i as int].len() == 0);
            return Err(ImportError::EmptyMethod(index));
        }
        out.push(
            InsertMock {
                name: r.name.clone(),
                is_enable: r.enable,
                request_method: methods[i].clone(),
                request_url: r.url.clone(),
                response_file_path: r.file.clone(),
                response_status_code: status,
                response_delay: delay,
                response_content_type: r.content_type.clone(),
            },
        );
        i = i + 1;
    }
    assert(out@.map_values(|m: InsertMock| m@) =~= toks.map_values(|t: Seq<char>| rule_for(*r, t)));
    Ok(out)
}

/// The rules of one declaration, or why it is refused; `index` is its
/// position in the document.
pub fn expand_route(r: &RouterConfig, index: usize) -> (res: Result<Vec<InsertMock>, ImportError>)
    ensures
        res is Ok <==> route_valid(*r),
        res matches Ok(v) ==> v@.map_values(|m: InsertMock| m@) == expand(*r),
        res matches Err(e) ==> (e matches ImportError::EmptyFile(i) && i == index && r.file@.len() == 0)
            || (e matches ImportError::EmptyMethod(i) && i == index && r.file@.len() > 0),
{
    let methods = method_list(r.method.as_str());
    rules_for_methods(r, &methods, index)
}

/// The rules of all declarations, in order, or the first declaration that is
/// refused.
pub fn import_rules(routes: &Vec<RouterConfig>) -> (res: Result<Vec<InsertMock>, ImportError>)
    ensures
        res is Ok <==> all_valid(routes@),
        match res {
            Ok(v) => all_valid(routes@) && v@.map_values(|m: InsertMock| m@) == expand_all(routes@),
            Err(ImportError::EmptyFile(i)) => first_invalid(routes@, i as int)
                && routes@[i as int].file@.len() == 0,
            Err(ImportError::EmptyMethod(i)) => first_invalid(routes@, i as int)
                && routes@[i as int].file@.len() > 0,
            Err(ImportError::StoreFull) => false,
        },
{
    let mut out: Vec<InsertMock> = Vec::new();
    let mut i: usize = 0;
    while i < routes.len()
        invariant
            i <= routes@.len(),
            out@.map_values(|m: InsertMock| m@) == expand_all(routes@.subrange(0, i as int)),
            forall|j: int| 0 <= j < i ==> route_valid(#[trigger] routes@[j]),
        decreases routes@.len() - i,
    {
        let ghost before = out@.map_values(|m: InsertMock| m@);
        let mut rules = match expand_route(&routes[i], i) {
            Ok(v) => v,
            Err(e) => {
                return Err(e);
            },
        };
        let ghost added = rules@.map_values(|m: InsertMock| m@);
        out.append(&mut rules);
        proof {
            let next = routes@.subrange(0, i + 1);
            assert(next.drop_last() =~= routes@.subrange(0, i as int));
            assert(out@.map_values(|m: InsertMock| m@) =~= before + added);
        }
        i = i + 1;
    }
    assert(routes@.subrange(0, routes@.len() as int) =~= routes@);
    Ok(out)
}

/// The operator's line for one imported rule: `Imported mock: METHOD url -> file`.
pub fn progress_line(m: &InsertMock) -> (r: String)
    ensures
        r@ == "Imported mock: "@ + m.request_method@ + " "@ + m.request_url@ + " -> "@
            + m.response_file_path@,
{
    let mut s = String::from_str("Imported mock: ");
    s.append(m.request_method.as_str());
    s.append(" ");
    s.append(m.request_url.as_str());
    s.append(" -> ");
    s.append(m.response_file_path.as_str());
    s
}

} // verus!
