//! The audit record of an inbound request.
use vstd::prelude::*;
use crate::models::InsertLog;

verus! {

/// `key: value`.
pub open spec fn pair_text(pair: (Seq<char>, Seq<char>)) -> Seq<char> {
    pair.0 + ": "@ + pair.1
}

/// The items joined with `sep` between each two.
pub open spec fn join(items: Seq<Seq<char>>, sep: Seq<char>) -> Seq<char>
    decreases items.len(),
{
    if items.len() == 0 {
        Seq::empty()
    } else if items.len() == 1 {
        items[0]
    } else {
        join(items.drop_last(), sep) + sep + items.last()
    }
}

/// The views of a list of string pairs.
pub open spec fn pair_views(pairs: Seq<(String, String)>) -> Seq<(Seq<char>, Seq<char>)> {
    pairs.map_values(|p: (String, String)| (p.0@, p.1@))
}

/// Each pair written `key: value`, joined with `sep`.
pub fn join_pairs(pairs: &Vec<(String, String)>, sep: &str) -> (r: String)
    ensures
        r@ == join(pair_views(pairs@).map_values(|p: (Seq<char>, Seq<char>)| pair_text(p)), sep@),
{
    let ghost texts = pair_views(pairs@).map_values(|p: (Seq<char>, Seq<char>)| pair_text(p));
    let mut out = String::new();
    let mut i: usize = 0;
    while i < pairs.len()
        invariant
            i <= pairs@.len(),
            texts == pair_views(pairs@).map_values(|p: (Seq<char>, Seq<char>)| pair_text(p)),
            out@ == join(texts.subrange(0, i as int), sep@),
        decreases pairs@.len() - i,
    {
        let ghost prev = texts.subrange(0, i as int);
        let ghost next = texts.subrange(0, i + 1);
        assert(next.drop_last() =~= prev);
        if i > 0 {
            out.append(sep);
        }
        out.append(pairs[i].0.as_str());
        out.append(": ");
        out.append(pairs[i].1.as_str());
        proof {
            if i == 0 {
                assert(out@ =~= next[0]);
            } else {
                assert(out@ =~= join(prev, sep@) + sep@ + next.last());
            }
        }
        i = i + 1;
    }
    assert(texts.subrange(0, pairs@.len() as int) =~= texts);
    out
}

/// The audit record of a request: its method, path and body as they are,
/// its query parameters as `key: value` joined with `, `, and its headers as
/// `name: value` joined with line breaks.
pub fn audit_record(
    method: &str,
    path: &str,
    params: &Vec<(String, String)>,
    body: &str,
    headers: &Vec<(String, String)>,
) -> (r: InsertLog)
    ensures
        r.request_method@ == method@,
        r.request_url@ == path@,
        r.request_params@ == join(
            pair_views(params@).map_values(|p: (Seq<char>, Seq<char>)| pair_text(p)),
            ", "@,
        ),
        r.request_body@ == body@,
        r.request_headers@ == join(
            pair_views(headers@).map_values(|p: (Seq<char>, Seq<char>)| pair_text(p)),
            "\n"@,
        ),
{
    InsertLog {
        request_method: String::from_str(method),
        request_url: String::from_str(path),
        request_params: join_pairs(params, ", "),
        request_body: String::from_str(body),
        request_headers: join_pairs(headers, "\n"),
    }
}

} // verus!
