use vstd::prelude::*;

verus! {

/// The ways in which packaging can fail.
#[derive(Clone, Copy, Debug, PartialEq, Eq, Structural)]
pub enum Error {
    /// The loader release archive could not be retrieved.
    DownloadError,
    /// The retrieved bytes are not a readable zip archive.
    InvalidArchive,
    /// A required entry is absent from the loader release archive.
    MissingEntry,
    /// No title identifier was given and none is configured.
    NoTitleId,
    /// The build step did not produce a plugin binary.
    BuildError,
    /// Reading or writing a local file, or writing the output archive, failed.
    Io,
}

} // verus!
