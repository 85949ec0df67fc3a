//! The errors a run can end in, and their taxonomy.

use vstd::prelude::*;

verus! {

/// The two external tools a run may invoke.
#[derive(Clone, Copy, Debug, PartialEq, Eq, Structural)]
pub enum Tool {
    /// The media prober, asked for stream metadata.
    Probe,
    /// The media transcoder, asked for the stereo downmix.
    Transcode,
}

/// Everything that can go wrong during a run. Every error is terminal: the
/// run stops and the error is surfaced to the user.
#[derive(Debug)]
pub enum RunError {
    /// The input path does not exist.
    InputMissing,
    /// The input path exists but is not a regular file.
    InputNotFile,
    /// The output path already exists and overwriting was not allowed.
    OutputExists,
    /// The tool could not be launched at all.
    SpawnFailed(Tool),
    /// The probing tool wrote the carried bytes to its standard error.
    ProbeFailed(Vec<u8>),
    /// The transcoding tool wrote the carried bytes to its standard error.
    TranscodeFailed(Vec<u8>),
    /// The probing tool's report was not JSON, or lacked a stream array.
    MalformedMetadata,
    /// A stream record carried a channel-count field that is not an integer.
    InvalidChannelValue,
}

/// The three kinds of failure a run distinguishes.
#[derive(Clone, Copy, Debug, PartialEq, Eq, Structural)]
pub enum ErrorKind {
    /// A path check failed before any external tool ran.
    PathValidation,
    /// An external tool could not be launched or reported a problem.
    ToolInvocation,
    /// The probing tool's report could not be understood.
    MetadataParse,
}

/// The kind a given error falls under.
pub open spec fn kind_of(e: RunError) -> ErrorKind {
    match e {
        RunError::InputMissing => ErrorKind::PathValidation,
        RunError::InputNotFile => ErrorKind::PathValidation,
        RunError::OutputExists => ErrorKind::PathValidation,
        RunError::SpawnFailed(_) => ErrorKind::ToolInvocation,
        RunError::ProbeFailed(_) => ErrorKind::ToolInvocation,
        RunError::TranscodeFailed(_) => ErrorKind::ToolInvocation,
        RunError::MalformedMetadata => ErrorKind::MetadataParse,
        RunError::InvalidChannelValue => ErrorKind::MetadataParse,
    }
}

impl RunError {
    /// Which kind of failure this error is.
    pub fn kind(&self) -> (k: ErrorKind)
        ensures
            k == kind_of(*self),
    {
        match self {
            RunError::InputMissing => ErrorKind::PathValidation,
            RunError::InputNotFile => ErrorKind::PathValidation,
            RunError::OutputExists => ErrorKind::PathValidation,
            RunError::SpawnFailed(_) => ErrorKind::ToolInvocation,
            RunError::ProbeFailed(_) => ErrorKind::ToolInvocation,
            RunError::TranscodeFailed(_) => ErrorKind::ToolInvocation,
            RunError::MalformedMetadata => ErrorKind::MetadataParse,
            RunError::InvalidChannelValue => ErrorKind::MetadataParse,
        }
    }
}

} // verus!
