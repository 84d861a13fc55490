//! A bounds-checked writer over the caller-owned scratch region that every
//! entry-point call supplies. Variable-length output is carved out of this
//! region as terminated, non-overlapping byte strings; once the capacity is
//! exhausted no further write succeeds.

use vstd::prelude::*;
use vstd::string::StrSliceExecFns;
use vstd::utf8::encode_utf8;

verus! {

/// Why one field could not be carved out of the scratch buffer.
#[derive(Clone, Copy, Debug, PartialEq, Eq, Structural)]
pub enum EncodeError {
    /// The remaining capacity is smaller than the field's required bytes;
    /// the caller should retry with a larger buffer.
    InsufficientSpace,
    /// The field cannot be laid out as a terminated byte string because its
    /// text contains an interior terminator byte.
    EncodingFailure,
}

/// The scratch region: a capacity-bounded byte area plus a cursor that tracks
/// the bytes consumed so far. Writes go through [`CBuffer::write_str`] alone,
/// so carved-out strings are always terminated and never overlap.
pub struct CBuffer {
    data: Vec<u8>,
    pos: usize,
}

impl CBuffer {
    /// The fixed capacity of the region, in bytes.
    pub closed spec fn capacity(self) -> int {
        self.data@.len() as int
    }

    /// How many bytes have been consumed by writes since the last clear.
    pub closed spec fn cursor(self) -> int {
        self.pos as int
    }

    /// Every byte of the region, consumed or not.
    pub closed spec fn contents(self) -> Seq<u8> {
        self.data@
    }

    /// The buffer's invariant: the cursor never passes the capacity.
    pub open spec fn wf(self) -> bool {
        0 <= self.cursor() <= self.capacity() && self.contents().len() == self.capacity()
    }

    /// A fresh region of `capacity` zeroed bytes with the cursor at the start.
    #[verifier::loop_isolation(false)]
    pub fn new(capacity: usize) -> (r: CBuffer)
        ensures
            r.wf(),
            r.capacity() == capacity,
            r.cursor() == 0,
            forall|i: int| 0 <= i < capacity ==> r.contents()[i] == 0,
    {
        let mut data: Vec<u8> = Vec::new();
        while data.len() < capacity
            invariant
                data@.len() <= capacity,
                forall|i: int| 0 <= i < data@.len() ==> data@[i] == 0,
            decreases capacity - data@.len(),
        {
            data.push(0);
        }
        CBuffer { data, pos: 0 }
    }

    /// Resets the cursor to the start and zeroes the region, making the whole
    /// capacity available again. Called at the start of every entry-point
    /// call, before any field is written.
    #[verifier::loop_isolation(false)]
    pub fn clear(&mut self)
        requires
            old(self).wf(),
        ensures
            final(self).wf(),
            final(self).capacity() == old(self).capacity(),
            final(self).cursor() == 0,
            forall|i: int| 0 <= i < final(self).capacity() ==> final(self).contents()[i] == 0,
    {
        let len = self.data.len();
        let mut i: usize = 0;
        while i < len
            invariant
                i <= len,
                self.data@.len() == len,
                forall|j: int| 0 <= j < i ==> self.data@[j] == 0,
            decreases len - i,
        {
            self.data[i] = 0;
            i += 1;
        }
        self.pos = 0;
    }

    /// Carves a copy of `s` out of the region: all of its bytes followed by a
    /// terminator, starting at the cursor, and returns the offset of the
    /// slice's first byte. All-or-nothing: on failure nothing is written and
    /// the cursor does not move. A zero-length string still consumes one byte
    /// for its terminator.
    #[verifier::loop_isolation(false)]
    pub fn write_str(&mut self, s: &str) -> (r: Result<usize, EncodeError>)
        requires
            old(self).wf(),
        ensures
            final(self).wf(),
            final(self).capacity() == old(self).capacity(),
            match r {
                Ok(off) => ({
                    let bytes = encode_utf8(s@);
                    &&& !bytes.contains(0)
                    &&& off == old(self).cursor()
                    &&& old(self).cursor() + bytes.len() + 1 <= old(self).capacity()
                    &&& final(self).cursor() == old(self).cursor() + bytes.len() + 1
                    &&& forall|i: int|
                        0 <= i < off ==> final(self).contents()[i] == old(self).contents()[i]
                    &&& forall|i: int|
                        0 <= i < bytes.len() ==> final(self).contents()[off + i] == bytes[i]
                    &&& final(self).contents()[off + bytes.len()] == 0
                    &&& forall|i: int|
                        off + bytes.len() < i < old(self).capacity()
                            ==> final(self).contents()[i] == old(self).contents()[i]
                }),
                Err(EncodeError::EncodingFailure) => encode_utf8(s@).contains(0)
                    && *final(self) == *old(self),
                Err(EncodeError::InsufficientSpace) => !encode_utf8(s@).contains(0)
                    && old(self).cursor() + encode_utf8(s@).len() + 1 > old(self).capacity()
                    && *final(self) == *old(self),
            },
    {
        let bytes: Vec<u8> = s.as_bytes_vec();
        let mut i: usize = 0;
        while i < bytes.len()
            invariant
                i <= bytes@.len(),
                bytes@ == encode_utf8(s@),
                forall|j: int| 0 <= j < i ==> bytes@[j] != 0,
            decreases bytes@.len() - i,
        {
            if bytes[i] == 0 {
                return Err(EncodeError::EncodingFailure);
            }
            i += 1;
        }
        assert(!bytes@.contains(0));
        let free = self.data.len() - self.pos;
        if bytes.len() >= free {
            return Err(EncodeError::InsufficientSpace);
        }
        let start = self.pos;
        let mut i: usize = 0;
        while i < bytes.len()
            invariant
                i <= bytes@.len(),
                self.pos == start + i,
                start + bytes@.len() + 1 <= self.data@.len(),
                self.data@.len() == old(self).data@.len(),
                bytes@ == encode_utf8(s@),
                forall|j: int| 0 <= j < start ==> self.data@[j] == old(self).data@[j],
                forall|j: int| 0 <= j < i ==> self.data@[start + j] == bytes@[j],
                forall|j: int|
                    start + i <= j < self.data@.len() ==> self.data@[j] == old(self).data@[j],
            decreases bytes@.len() - i,
        {
            self.data[self.pos] = bytes[i];
            self.pos += 1;
            i += 1;
        }
        self.data[self.pos] = 0;
        self.pos += 1;
        Ok(start)
    }

    /// The consumed-byte count, for callers that track how full the region is.
    pub fn cursor_pos(&self) -> (r: usize)
        ensures
            r == self.cursor(),
    {
        self.pos
    }

    /// The fixed capacity, in bytes.
    pub fn capacity_bytes(&self) -> (r: usize)
        ensures
            r == self.capacity(),
    {
        self.data.len()
    }

    /// The whole region as bytes, for reading carved strings back out.
    pub fn contents_bytes(&self) -> (r: &[u8])
        ensures
            r@ == self.contents(),
    {
        self.data.as_slice()
    }
}

} // verus!
