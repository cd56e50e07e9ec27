use vstd::prelude::*;

verus! {

/// Why an operation of the launcher core could not be carried out.
#[derive(Clone, Debug)]
pub enum LaunchError {
    /// The operating system could not create the process; holds the cause.
    Spawn(String),
    /// Reading, writing or flushing a live stream or file failed; holds the cause.
    Io(String),
    /// The server answered a download request with a non-success status.
    DownloadStatus(String),
    /// The transfer of a download failed; holds the cause.
    DownloadTransfer(String),
    /// The operation has no implementation on this platform.
    UnsupportedPlatform,
    /// The managed tool artifact is not on disk.
    CoreMissing,
    /// The managed tool artifact exists but its path is not known.
    CorePathUnknown,
}

} // verus!
