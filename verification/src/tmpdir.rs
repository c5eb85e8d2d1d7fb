//! A uniquely named temporary directory, used by the direct
//! compile-and-run mode to hold one compilation's output.
//!
//! Candidates are named `<base>/rust-<id>` with a short random identifier
//! (see [`crate::rand::RandomSequences`]); the caller tries candidates
//! until one does not exist, creates it, and removes it when done.  Only
//! the naming is decided here.

use vstd::prelude::*;
use vstd::string::StringExecFns;

verus! {

/// A temporary directory adopted from the caller.
pub struct TmpDir {
    path: String,
}

impl TmpDir {
    /// The directory's location.
    pub closed spec fn spec_path(&self) -> Seq<char> {
        self.path@
    }

    /// The name a candidate directory gets for identifier `id` under the
    /// system's temporary directory `base`.
    pub fn candidate(base: &str, id: &str) -> (r: String)
        ensures
            r@ == base@ + "/rust-"@ + id@,
    {
        let mut r = base.to_owned();
        r.append("/rust-");
        r.append(id);
        r
    }

    /// Adopts the directory the caller created at `path`; removing it
    /// again is likewise the caller's duty.
    pub fn new(path: String) -> (r: TmpDir)
        ensures
            r.spec_path() == path@,
    {
        TmpDir { path }
    }

    /// The directory's path.
    pub fn path(&self) -> (r: &String)
        ensures
            r@ == self.spec_path(),
    {
        &self.path
    }
}

} // verus!
