//! Position-tracking reads and skips over a seekable byte source, with errors
//! that carry the byte offset and the playback duration reached so far.
use vstd::prelude::*;

pub mod context;
pub mod error;
pub mod laws;
pub mod source;

pub use context::Context;
pub use error::{ErrorKind, MP3DurationError};
pub use source::ByteSource;
