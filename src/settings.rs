//! Deployment settings and their defaults.
use vstd::prelude::*;

verus! {

/// The store's location: the configured one, else `database.db` in the
/// working directory `cwd`.
pub fn database_url(configured: Option<String>, cwd: &str) -> (r: String)
    ensures
        configured matches Some(u) ==> r@ == u@,
        configured is None ==> r@ == cwd@ + "/database.db"@,
{
    match configured {
        Some(u) => u,
        None => String::from_str(cwd).concat("/database.db"),
    }
}

/// The address to listen on: the configured one, else `0.0.0.0:3000`.
pub fn server_addr(configured: Option<String>) -> (r: String)
    ensures
        configured matches Some(a) ==> r@ == a@,
        configured is None ==> r@ == "0.0.0.0:3000"@,
{
    match configured {
        Some(a) => a,
        None => String::from_str("0.0.0.0:3000"),
    }
}

/// The root directory of response files: the configured one, else `store`.
pub fn store_path(configured: Option<String>) -> (r: String)
    ensures
        configured matches Some(p) ==> r@ == p@,
        configured is None ==> r@ == "store"@,
{
    match configured {
        Some(p) => p,
        None => String::from_str("store"),
    }
}

} // verus!
