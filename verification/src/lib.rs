//! Aggregate BLAKE2s-256 digests over file contents.
//!
//! The accumulator [`HashState`] is fed the bytes of each file; after every
//! file, the lowercase hex digest of everything fed so far is folded back
//! into the accumulator. The aggregation functions report per-file progress
//! as a sequence of [`ProgressInfo`] events and never abort on a single
//! file's failure.

use vstd::prelude::*;

pub mod encoding;
pub mod file;
pub mod folder;
pub mod state;

pub use file::get_hash_file;
pub use file::get_hash_files;
pub use folder::get_hash_folder;
pub use folder::get_hash_folders;
pub use state::HashState;

verus! {

/// Number of bytes fed into the accumulator per `update` call when a file's
/// content is streamed through it.
pub const PAGE_SIZE: usize = 4096;

/// The ways an operation of this library can fail, and the error kinds that
/// a caller reports for a file whose bytes could not be read.
#[derive(Clone, Copy, PartialEq, Eq, Structural, Debug)]
pub enum HashError {
    /// The file was not found.
    NotFound,
    /// Reading the file was not permitted.
    PermissionDenied,
    /// The operation was given an empty list of files.
    InvalidInput,
    /// Any other I/O failure.
    Other,
}

/// Information about progress: one event per file of an aggregation.
#[derive(Clone, Copy, PartialEq, Eq, Structural, Debug)]
pub enum ProgressInfo {
    /// How many files have been hashed successfully so far.
    Yield(u64),

    /// One file's bytes could not be read; the aggregation went on without it.
    Error(HashError),
}

} // verus!
