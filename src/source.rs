use vstd::prelude::*;

verus! {

/// A seekable, readable sequence of bytes: the stream and a cursor into it.
///
/// Like a file, the cursor may stand past the end of the data; reads there
/// find no bytes.
pub struct ByteSource {
    data: Vec<u8>,
    pos: usize,
}

/// What a byte source is: its bytes and the cursor's offset.
pub ghost struct SourceModel {
    pub bytes: Seq<u8>,
    pub cursor: nat,
}

/// Number of bytes between the cursor and the end of the stream.
pub open spec fn remaining(s: SourceModel) -> nat {
    if s.cursor <= s.bytes.len() {
        (s.bytes.len() - s.cursor) as nat
    } else {
        0
    }
}

/// The `n` bytes that follow the cursor.
pub open spec fn next_bytes(s: SourceModel, n: nat) -> Seq<u8> {
    Seq::new(n, |k: int| s.bytes[s.cursor + k])
}

impl View for ByteSource {
    type V = SourceModel;

    closed spec fn view(&self) -> SourceModel {
        SourceModel { bytes: self.data@, cursor: self.pos as nat }
    }
}

impl ByteSource {
    /// A source over `data` with the cursor at its start.
    pub fn new(data: Vec<u8>) -> (r: Self)
        ensures
            r@.bytes == data@,
            r@.cursor == 0,
    {
        ByteSource { data, pos: 0 }
    }

    /// Total number of bytes in the stream.
    pub fn len(&self) -> (r: usize)
        ensures
            r == self@.bytes.len(),
    {
        self.data.len()
    }

    /// The cursor's offset from the start of the stream.
    pub fn position(&self) -> (r: usize)
        ensures
            r == self@.cursor,
    {
        self.pos
    }

    /// Moves the cursor to `pos`, which may lie past the end.
    pub fn set_position(&mut self, pos: usize)
        ensures
            final(self)@.bytes == old(self)@.bytes,
            final(self)@.cursor == pos,
    {
        self.pos = pos;
    }

    /// Copies the next `buffer.len()` bytes into `buffer` and moves the
    /// cursor past them. Where fewer bytes remain, nothing is copied, the
    /// cursor stays, and the result is `false`.
    pub fn read_exact(&mut self, buffer: &mut [u8]) -> (r: bool)
        ensures
            r == (old(buffer)@.len() <= remaining(old(self)@)),
            final(buffer)@.len() == old(buffer)@.len(),
            final(self)@.bytes == old(self)@.bytes,
            final(self)@.cursor <= usize::MAX,
            r ==> final(self)@.cursor == old(self)@.cursor + old(buffer)@.len(),
            r ==> final(buffer)@ == next_bytes(old(self)@, old(buffer)@.len()),
            !r ==> final(self)@ == old(self)@,
            !r ==> final(buffer)@ == old(buffer)@,
    {
        let n = buffer.len();
        let len = self.data.len();
        if n > 0 && (self.pos > len || n > len - self.pos) {
            return false;
        }
        let start = self.pos;
        let mut i: usize = 0;
        while i < n
            invariant
                n == buffer@.len(),
                len == self.data@.len(),
                n == 0 || start + n <= len,
                i <= n,
                forall|k: int| 0 <= k < i ==> buffer@[k] == self.data@[start + k],
            decreases n - i,
        {
            buffer[i] = self.data[start + i];
            i = i + 1;
        }
        self.pos = start + n;
        assert(buffer@ =~= next_bytes(old(self)@, n as nat));
        true
    }
}

} // verus!
