use vstd::prelude::*;
use core::time::Duration;

verus! {

/// What went wrong.
#[derive(Debug, Clone, Copy, PartialEq, Eq, Structural)]
pub enum ErrorKind {
    /// The stream ended before a read could be filled, or a skip would run
    /// past its end.
    UnexpectedEOF,
    /// The byte source failed for a reason other than reaching its end.
    /// An in-memory source never does; callers that load or drive other
    /// sources stamp such failures through `Context::error`.
    IO,
}

/// An error together with where it happened: the number of bytes read so
/// far and the playback duration accounted for up to then.
#[derive(Debug, Clone, Copy)]
pub struct MP3DurationError {
    pub kind: ErrorKind,
    pub offset: usize,
    pub at_duration: Duration,
}

} // verus!
