use vstd::prelude::*;
use core::time::Duration;
use crate::error::{ErrorKind, MP3DurationError};
use crate::source::{ByteSource, SourceModel, remaining, next_bytes};

verus! {

/// The duration that `Duration::from_secs` gives for a number of seconds.
pub uninterp spec fn duration_from_secs(secs: u64) -> Duration;

/// Relies on `Duration::from_secs`: the same number of seconds always gives
/// the same duration.
pub assume_specification[ core::time::Duration::from_secs ](secs: u64) -> (r: Duration)
    ensures
        r == duration_from_secs(secs),
;

/// Reads and skips over a borrowed byte source, counting the bytes read and
/// stamping every error with that count and the current `duration`.
pub struct Context<'r> {
    reader: &'r mut ByteSource,
    bytes_read: usize,
    reached_eof: bool,
    /// Playback time accounted for so far; set by whoever drives the parse.
    pub duration: Duration,
}

/// The state of a context: its source, the bytes delivered by exact reads,
/// whether the last exact read hit the end, and the duration it reports.
pub ghost struct ContextModel {
    pub source: SourceModel,
    pub bytes_read: nat,
    pub reached_eof: bool,
    pub duration: Duration,
}

/// An exact read of `n` bytes can be filled from what remains.
pub open spec fn read_fits(m: ContextModel, n: nat) -> bool {
    n <= remaining(m.source)
}

/// Skipping `n` bytes stays within the stream.
pub open spec fn skip_fits(m: ContextModel, n: nat) -> bool {
    m.source.cursor + n <= m.source.bytes.len()
}

/// The state after an exact read of `n` bytes: on success the cursor and the
/// count both move by `n`; on failure only the end-of-stream flag is raised.
pub open spec fn after_read(m: ContextModel, n: nat) -> ContextModel {
    if read_fits(m, n) {
        ContextModel {
            source: SourceModel { cursor: m.source.cursor + n, ..m.source },
            bytes_read: m.bytes_read + n,
            reached_eof: false,
            ..m
        }
    } else {
        ContextModel { reached_eof: true, ..m }
    }
}

/// The state after a skip of `n` bytes: only the cursor moves, and only when
/// the skip fits.
pub open spec fn after_skip(m: ContextModel, n: nat) -> ContextModel {
    if skip_fits(m, n) {
        ContextModel { source: SourceModel { cursor: m.source.cursor + n, ..m.source }, ..m }
    } else {
        m
    }
}

/// `e` is an error of `kind` stamped with the count and duration of `m`.
pub open spec fn stamped(e: MP3DurationError, m: ContextModel, kind: ErrorKind) -> bool {
    &&& e.kind == kind
    &&& e.offset == m.bytes_read
    &&& e.at_duration == m.duration
}

impl<'r> View for Context<'r> {
    type V = ContextModel;

    closed spec fn view(&self) -> ContextModel {
        ContextModel {
            source: (*self.reader)@,
            bytes_read: self.bytes_read as nat,
            reached_eof: self.reached_eof,
            duration: self.duration,
        }
    }
}

impl<'r> Context<'r> {
    /// No more bytes have been counted than the cursor has passed over.
    pub open spec fn wf(&self) -> bool {
        self@.bytes_read <= self@.source.cursor
    }

    /// A context over `reader`, with nothing read, no end seen and zero
    /// duration.
    pub fn new(reader: &'r mut ByteSource) -> (r: Self)
        ensures
            r.wf(),
            r@ == (ContextModel {
                source: old(reader)@,
                bytes_read: 0,
                reached_eof: false,
                duration: duration_from_secs(0),
            }),
    {
        Context { reader, bytes_read: 0, reached_eof: false, duration: Duration::from_secs(0) }
    }

    /// Fills `buffer` with the next bytes of the source, or fails with
    /// `UnexpectedEOF` when too few remain.
    pub fn read_exact(&mut self, buffer: &mut [u8]) -> (r: Result<(), MP3DurationError>)
        requires
            old(self).wf(),
        ensures
            final(self).wf(),
            final(self)@ == after_read(old(self)@, old(buffer)@.len()),
            r.is_ok() == read_fits(old(self)@, old(buffer)@.len()),
            r.is_ok() ==> final(buffer)@ == next_bytes(old(self)@.source, old(buffer)@.len()),
            r.is_err() ==> final(buffer)@ == old(buffer)@,
            r.is_err() ==> stamped(r->Err_0, old(self)@, ErrorKind::UnexpectedEOF),
    {
        let filled = self.reader.read_exact(buffer);
        if filled {
            self.bytes_read = self.bytes_read + buffer.len();
        }
        self.reached_eof = !filled;
        if filled {
            Ok(())
        } else {
            Err(self.error(ErrorKind::UnexpectedEOF))
        }
    }

    /// Moves the cursor `num_bytes` forward, or fails with `UnexpectedEOF`
    /// and leaves it in place when that would pass the end of the stream.
    /// Neither the count of bytes read nor the end-of-stream flag changes.
    pub fn skip(&mut self, num_bytes: usize) -> (r: Result<(), MP3DurationError>)
        requires
            old(self).wf(),
        ensures
            final(self).wf(),
            final(self)@ == after_skip(old(self)@, num_bytes as nat),
            r.is_ok() == skip_fits(old(self)@, num_bytes as nat),
            r.is_err() ==> stamped(r->Err_0, old(self)@, ErrorKind::UnexpectedEOF),
    {
        let cur_pos = self.reader.position();
        let end_pos = self.reader.len();
        if cur_pos > end_pos || num_bytes > end_pos - cur_pos {
            return Err(self.error(ErrorKind::UnexpectedEOF));
        }
        self.reader.set_position(cur_pos + num_bytes);
        Ok(())
    }

    /// Whether the last exact read failed because the stream had ended.
    pub fn reached_eof(&self) -> (r: bool)
        ensures
            r == self@.reached_eof,
    {
        self.reached_eof
    }

    /// Number of bytes delivered by successful exact reads.
    pub fn bytes_read(&self) -> (r: usize)
        ensures
            r == self@.bytes_read,
    {
        self.bytes_read
    }

    /// An error of `e`'s kind stamped with the current count and duration.
    pub fn error(&self, e: ErrorKind) -> (r: MP3DurationError)
        ensures
            stamped(r, self@, e),
    {
        MP3DurationError { kind: e, offset: self.bytes_read, at_duration: self.duration }
    }
}

} // verus!
