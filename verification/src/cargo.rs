//! A cargo project: the cached, buildable materialization of one source
//! file, named after the source's canonical location and living under the
//! cache root.
//!
//! The struct only describes the entry — its name and its directory — and
//! derives the fixed on-disk layout beneath it.  Whether the entry is fresh
//! or stale is decided by [`Project::has_changed`] from the entry point's
//! modification time and the persisted timestamp.

use vstd::prelude::*;
use vstd::string::StringExecFns;

use crate::Error;
use crate::ident::{compute_entry_name, entry_name};
use crate::manifest::{synthesize_manifest, synthesized};
use crate::stamp::{decimal_of, is_timestamp, parse_timestamp, render_timestamp, timestamp_value};

verus! {

/// A cargo project.
pub struct Project {
    name: String,
    path: String,
}

impl Project {
    /// The project's name: the source file's stem.
    pub closed spec fn spec_name(&self) -> Seq<char> {
        self.name@
    }

    /// The project's directory: the cache root joined with the entry name.
    pub closed spec fn spec_path(&self) -> Seq<char> {
        self.path@
    }

    /// Creates the project descriptor for a source file.
    ///
    /// `parent` and `stem` are the canonical parent directory and the stem
    /// of the source file; the caller resolves them (and checks that the
    /// path names an existing file) before any derived state is computed.
    pub fn new(cache_root: &str, parent: &str, stem: &str) -> (p: Project)
        ensures
            p.spec_name() == stem@,
            p.spec_path() == cache_root@ + seq!['/'] + entry_name(parent@, stem@),
    {
        let entry = compute_entry_name(parent, stem);
        let mut path = cache_root.to_owned();
        path.append("/");
        path.append(entry.as_str());
        proof {
            reveal_strlit("/");
            assert("/"@ =~= seq!['/']);
            assert(path@ =~= cache_root@ + seq!['/'] + entry_name(parent@, stem@));
        }
        Project { name: stem.to_owned(), path }
    }

    /// The project's directory.
    pub fn path(&self) -> (r: &String)
        ensures
            r@ == self.spec_path(),
    {
        &self.path
    }

    /// The project's name.
    pub fn name(&self) -> (r: &String)
        ensures
            r@ == self.spec_name(),
    {
        &self.name
    }

    /// The entry point: a symlink to the source file.
    pub fn entry_point_path(&self) -> (r: String)
        ensures
            r@ == self.spec_path() + "/src/main.rs"@,
    {
        let mut r = self.path.clone();
        r.append("/src/main.rs");
        r
    }

    /// The synthesized manifest.
    pub fn manifest_path(&self) -> (r: String)
        ensures
            r@ == self.spec_path() + "/Cargo.toml"@,
    {
        let mut r = self.path.clone();
        r.append("/Cargo.toml");
        r
    }

    /// The pristine backup of the scaffold's manifest, written once at
    /// creation and used as the template for every later synthesis.
    pub fn manifest_backup_path(&self) -> (r: String)
        ensures
            r@ == self.spec_path() + "/Cargo.toml.orig"@,
    {
        let mut r = self.path.clone();
        r.append("/Cargo.toml.orig");
        r
    }

    /// The dependency lock file, removed when a rebuild is forced.
    pub fn lock_path(&self) -> (r: String)
        ensures
            r@ == self.spec_path() + "/Cargo.lock"@,
    {
        let mut r = self.path.clone();
        r.append("/Cargo.lock");
        r
    }

    /// The persisted timestamp.
    pub fn stamp_path(&self) -> (r: String)
        ensures
            r@ == self.spec_path() + "/time.stamp"@,
    {
        let mut r = self.path.clone();
        r.append("/time.stamp");
        r
    }

    /// The compiled executable, at the build tool's release-mode location.
    pub fn executable_path(&self) -> (r: String)
        ensures
            r@ == self.spec_path() + "/target/release/"@ + self.spec_name(),
    {
        let mut r = self.path.clone();
        r.append("/target/release/");
        r.append(self.name.as_str());
        r
    }

    /// Extracts a manifest from the source file's comments and returns the
    /// updated project manifest: the pristine template with the embedded
    /// fragment appended.  The caller reads `Cargo.toml.orig` and the
    /// entry point, and writes the result over `Cargo.toml`.
    pub fn update_cargo_toml(&self, template: &Vec<u8>, source: &Vec<u8>) -> (r: Vec<u8>)
        ensures
            r@ == synthesized(template@, source@),
    {
        synthesize_manifest(template, source)
    }

    /// Returns the bytes that record `modified` in `time.stamp`: its
    /// decimal rendering.  The caller writes them over the file.
    pub fn update_timestamp(&self, modified: i64) -> (r: Vec<u8>)
        ensures
            r@ == decimal_of(modified as int),
    {
        render_timestamp(modified)
    }

    /// Reads the recorded timestamp out of `time.stamp`'s content, handed
    /// in as `stamp` (`None` when the file does not exist — not an error).
    /// Malformed content is a hard failure carrying the content; the
    /// caller then deletes the file.
    pub fn timestamp(&self, stamp: Option<&Vec<u8>>) -> (r: Result<Option<i64>, Error>)
        ensures
            match r {
                Ok(t) => match stamp {
                    None => t is None,
                    Some(c) => {
                        &&& is_timestamp(c@)
                        &&& t matches Some(v) && v == timestamp_value(c@)
                    },
                },
                Err(e) => {
                    &&& stamp matches Some(c)
                    &&& !is_timestamp(c@)
                    &&& e matches Error::MalformedTimestamp(cc) && cc@ == c@
                },
            },
    {
        match stamp {
            None => Ok(None),
            Some(c) => match parse_timestamp(c) {
                Ok(t) => Ok(Some(t)),
                Err(e) => Err(e),
            },
        }
    }

    /// Checks if the project has changed since the last build.
    ///
    /// `modified` is the entry point's current modification time; `stamp`
    /// is the content of `time.stamp`, or `None` when the file does not
    /// exist.  A missing timestamp means stale; a malformed one is a hard
    /// failure carrying the unparsable content; otherwise the project has
    /// changed exactly when the modification time is newer than the
    /// recorded one (equality counts as unchanged).
    pub fn has_changed(&self, modified: i64, stamp: Option<&Vec<u8>>) -> (r: Result<bool, Error>)
        ensures
            match r {
                Ok(b) => match stamp {
                    None => b == true,
                    Some(c) => is_timestamp(c@) && b == (modified > timestamp_value(c@)),
                },
                Err(e) => {
                    &&& stamp matches Some(c)
                    &&& !is_timestamp(c@)
                    &&& e matches Error::MalformedTimestamp(cc) && cc@ == c@
                },
            },
    {
        match stamp {
            None => Ok(true),
            Some(c) => match parse_timestamp(c) {
                Ok(t) => Ok(modified > t),
                Err(e) => Err(e),
            },
        }
    }
}

} // verus!
