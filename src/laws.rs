use vstd::prelude::*;
use crate::context::{ContextModel, after_read, after_skip, read_fits, skip_fits};

verus! {

/// A skip that does not fit changes nothing, so asking for it again fails
/// in the same way.
pub proof fn lemma_failed_skip_repeats(m: ContextModel, n: nat)
    requires
        !skip_fits(m, n),
    ensures
        after_skip(m, n) == m,
        !skip_fits(after_skip(m, n), n),
{
}

/// A skip, whether or not it fits, leaves the count of bytes read, the
/// end-of-stream flag and the duration as they were.
pub proof fn lemma_skip_keeps_read_state(m: ContextModel, n: nat)
    ensures
        after_skip(m, n).bytes_read == m.bytes_read,
        after_skip(m, n).reached_eof == m.reached_eof,
        after_skip(m, n).duration == m.duration,
{
}

/// The count of bytes read never goes down, and grows only by what a
/// successful exact read delivers.
pub proof fn lemma_bytes_read_grows_by_reads(m: ContextModel, n: nat)
    ensures
        after_read(m, n).bytes_read == if read_fits(m, n) { m.bytes_read + n } else { m.bytes_read },
        after_read(m, n).bytes_read >= m.bytes_read,
        after_skip(m, n).bytes_read >= m.bytes_read,
{
}

/// The end-of-stream flag after an exact read says exactly whether that read
/// fell short.
pub proof fn lemma_eof_flag_is_last_read(m: ContextModel, n: nat)
    ensures
        after_read(m, n).reached_eof == !read_fits(m, n),
        n == 0 ==> !after_read(m, n).reached_eof,
{
}

} // verus!
