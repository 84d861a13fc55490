//! The per-stream enumeration state behind the open/next/close calls: a
//! materialized sequence of records and a position. One cursor exists per
//! record-type family; callers that share a family serialize access to its
//! cursor with one exclusive lock, held outside this crate, while cursors of
//! different families are wholly independent values.

use vstd::prelude::*;

verus! {

/// One enumeration stream's state: the records not yet yielded, and a count
/// of those already yielded since the last open. `open` replaces any earlier
/// state wholesale — deliberately tolerant of a repeated open with no close in
/// between — `next` yields the front record, and `close` discards everything.
pub struct Cursor<T> {
    items: Vec<T>,
    taken_count: usize,
}

impl<T> Cursor<T> {
    /// The records that remain to be yielded, front first.
    pub closed spec fn remaining(self) -> Seq<T> {
        self.items@
    }

    /// How many records have been yielded since the last open (or close).
    pub closed spec fn taken(self) -> int {
        self.taken_count as int
    }

    /// The cursor's invariant: the position lies within the sequence that was
    /// opened, so the yield count can always grow by one per remaining record.
    pub open spec fn wf(self) -> bool {
        0 <= self.taken() && self.taken() + self.remaining().len() <= usize::MAX
    }

    /// A closed stream: nothing to yield, position zero.
    pub fn new() -> (r: Cursor<T>)
        ensures
            r.wf(),
            r.remaining() == Seq::<T>::empty(),
            r.taken() == 0,
    {
        Cursor { items: Vec::new(), taken_count: 0 }
    }

    /// Opens the stream on `records`, replacing whatever was there and
    /// resetting the position. Nothing of the earlier state survives.
    pub fn open(&mut self, records: Vec<T>)
        ensures
            final(self).wf(),
            final(self).remaining() == records@,
            final(self).taken() == 0,
    {
        let record_count = records.len();
        assert(record_count <= usize::MAX);
        self.items = records;
        self.taken_count = 0;
    }

    /// Yields the front record, transferring its ownership to the caller and
    /// advancing the position by one; yields nothing once the stream is
    /// exhausted (or closed), leaving the state as it was.
    pub fn next(&mut self) -> (r: Option<T>)
        requires
            old(self).wf(),
        ensures
            final(self).wf(),
            old(self).remaining().len() == 0 ==> r is None && *final(self) == *old(self),
            old(self).remaining().len() > 0 ==> r == Some(old(self).remaining()[0])
                && final(self).remaining() == old(self).remaining().drop_first()
                && final(self).taken() == old(self).taken() + 1,
    {
        if self.items.len() > 0 {
            let item = self.items.remove(0);
            self.taken_count += 1;
            Some(item)
        } else {
            None
        }
    }

    /// Closes the stream: discards the records and resets the position, so
    /// nothing remains until the next open.
    pub fn close(&mut self)
        ensures
            final(self).wf(),
            final(self).remaining() == Seq::<T>::empty(),
            final(self).taken() == 0,
    {
        self.items.clear();
        self.taken_count = 0;
    }
}

/// Law: enumeration preserves order. After `open(records)`, the `skip + 1`-th
/// call of `next` yields exactly `records[skip]`, and one past the end yields
/// nothing: the stream replays the opened sequence front to back.
#[verifier::loop_isolation(false)]
pub fn enumeration_yields_in_order<T>(records: Vec<T>, skip: usize) -> (r: Option<T>)
    requires
        skip <= records@.len(),
    ensures
        skip < records@.len() ==> r == Some(records@[skip as int]),
        skip == records@.len() ==> r is None,
{
    let ghost opened = records@;
    let mut stream: Cursor<T> = Cursor::new();
    stream.open(records);
    let mut k: usize = 0;
    while k < skip
        invariant
            k <= skip,
            stream.wf(),
            stream.remaining() =~= opened.skip(k as int),
        decreases skip - k,
    {
        let yielded = stream.next();
        assert(opened.skip(k as int).drop_first() =~= opened.skip(k as int + 1));
        k += 1;
    }
    stream.next()
}

/// Law: a stream closed right after an open holds no residual state: `open`,
/// then `close`, then `next` yields nothing, whatever records were opened.
pub fn open_close_next_yields_none<T>(records: Vec<T>) -> (r: Option<T>)
    ensures
        r is None,
{
    let mut stream: Cursor<T> = Cursor::new();
    stream.open(records);
    stream.close();
    stream.next()
}

/// Law: streams of different record-type families make independent progress.
/// Interleaving open and next on two cursors yields from each exactly what it
/// would have yielded alone: the front of its own opened sequence.
pub fn interleaved_streams_progress<A, B>(a_records: Vec<A>, b_records: Vec<B>) -> (r: (
    Option<A>,
    Option<B>,
))
    ensures
        a_records@.len() > 0 ==> r.0 == Some(a_records@[0]),
        a_records@.len() == 0 ==> r.0 is None,
        b_records@.len() > 0 ==> r.1 == Some(b_records@[0]),
        b_records@.len() == 0 ==> r.1 is None,
{
    let mut a_stream: Cursor<A> = Cursor::new();
    let mut b_stream: Cursor<B> = Cursor::new();
    a_stream.open(a_records);
    b_stream.open(b_records);
    let a_yield = a_stream.next();
    let b_yield = b_stream.next();
    b_stream.close();
    a_stream.close();
    (a_yield, b_yield)
}

} // verus!
