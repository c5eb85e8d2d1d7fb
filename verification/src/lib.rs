//! Rustic scripts (`#!/usr/bin/rustic`) with access to the Cargo ecosystem.
//!
//! The library decides when a cached build of a script is reused, where the
//! compiled artifact lives, and how the child process's result is surfaced.
//! All filesystem and process work is performed by the caller, which feeds
//! the observed outcomes back into the verified decision logic.

use vstd::prelude::*;

pub mod cache;
pub mod cargo;
pub mod ident;
pub mod manifest;
pub mod rand;
pub mod session;
pub mod stamp;
pub mod tmpdir;

verus! {

/// Everything that can go wrong while materializing, building or running a
/// cached project.
#[derive(Debug)]
pub enum Error {
    /// `cargo build` failed; holds the captured standard error bytes.
    CargoBuild(Vec<u8>),
    /// `cargo new` failed; holds the captured standard error bytes.
    CargoNew(Vec<u8>),
    /// A filesystem or process operation failed; holds a diagnostic message.
    Io(Vec<u8>),
    /// `time.stamp` is malformed; holds the unparsable content.
    MalformedTimestamp(Vec<u8>),
    /// Can't find the cache directory.
    NoCacheDir,
    /// First argument is not a file; holds the offending path.
    NotAFile(String),
    /// The executed program was terminated by a signal and has no exit code.
    SignalTerminated,
}

} // verus!
