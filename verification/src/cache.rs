//! The cache directory resolver: decides where project entries live.
//!
//! The caller reads the two relevant environment values — the explicit
//! cache-directory override and the user's home directory — and hands them
//! in; the decision itself is pure.

use vstd::prelude::*;
use vstd::string::StringExecFns;

use crate::Error;

verus! {

/// Resolves the root directory under which all cache entries are
/// materialized.
///
/// The override (`XDG_CACHE_HOME`) wins and is used verbatim when set;
/// otherwise the default is `<home>/.cache/rustic`; with neither value
/// available the cache root cannot be determined.
pub fn resolve_cache_root(cache_override: Option<String>, home: Option<String>) -> (r: Result<
    String,
    Error,
>)
    ensures
        match r {
            Ok(p) => match cache_override {
                Some(x) => p@ == x@,
                None => home matches Some(h) && p@ == h@ + "/.cache/rustic"@,
            },
            Err(e) => {
                &&& cache_override is None
                &&& home is None
                &&& e matches Error::NoCacheDir
            },
        },
{
    match cache_override {
        Some(x) => Ok(x),
        None => match home {
            Some(h) => {
                let mut p = h;
                p.append("/.cache/rustic");
                Ok(p)
            },
            None => Err(Error::NoCacheDir),
        },
    }
}

} // verus!
