//! Chunk source adapter: presents a range-addressed, asynchronously
//! fetched data source (total size known up front) as a pull-based byte
//! reader.
//!
//! The adapter itself is a single-slot state machine over plain offsets.
//! One read is split at its suspension point into three steps:
//! [`ChunkCursor::begin_read`] decides whether to finish immediately (end
//! of stream), refuse (a fetch is already in flight), or issue a fetch
//! for the next byte range; the driver performs the fetch and hands the
//! bytes back through [`ChunkCursor::complete_read`], or reports the
//! fetch's failure through [`ChunkCursor::fail_read`].  The recorded
//! in-flight range is what makes suspension safe: a resumed read finds
//! the same fetch again instead of issuing a duplicate, and a failed
//! fetch leaves the cursor where it was so a retry rereads the same
//! range, skipping and duplicating nothing.

use vstd::prelude::*;

use crate::outcome::FailureReason;

verus! {

/// What a freshly begun read must do next.
#[derive(Clone, Copy, Debug, PartialEq, Eq, Structural)]
pub enum ReadStart {
    /// The cursor is at the end of the source: the read completes at
    /// once with zero bytes, and no fetch is issued.
    Eof,
    /// A fetch for the byte range `[start, end)` was issued and
    /// recorded; the read is suspended until the source answers.
    Fetch { start: u64, end: u64 },
}

/// Position state of one adapter instance: the current byte offset, the
/// total length of the source, and the at-most-one in-flight fetch.
#[derive(Clone, Copy, Debug)]
pub struct ChunkCursor {
    offset: u64,
    total: u64,
    pending: Option<(u64, u64)>,
}

impl ChunkCursor {
    /// Bytes delivered so far; everything before this offset has been
    /// handed to the consumer exactly once.
    pub closed spec fn spec_offset(self) -> u64 {
        self.offset
    }

    /// Total byte length of the underlying source.
    pub closed spec fn spec_total(self) -> u64 {
        self.total
    }

    /// The recorded in-flight fetch range, if a read is suspended.
    pub closed spec fn spec_pending(self) -> Option<(u64, u64)> {
        self.pending
    }

    /// Adapter invariant: the offset never exceeds the total length,
    /// and an in-flight fetch always starts at the current offset and
    /// stays within the source.
    pub open spec fn wf(self) -> bool {
        &&& self.spec_offset() <= self.spec_total()
        &&& match self.spec_pending() {
                Some(r) => {
                    &&& r.0 == self.spec_offset()
                    &&& r.0 <= r.1
                    &&& r.1 <= self.spec_total()
                },
                None => true,
            }
    }

    /// A fresh adapter over a source of `total` bytes: cursor at the
    /// start, nothing in flight.
    pub fn new(total: u64) -> (c: ChunkCursor)
        ensures
            c.wf(),
            c.spec_offset() == 0,
            c.spec_total() == total,
            c.spec_pending() is None,
    {
        ChunkCursor { offset: 0, total, pending: None }
    }

    /// Current byte offset.
    pub fn offset(&self) -> (r: u64)
        ensures
            r == self.spec_offset(),
    {
        self.offset
    }

    /// Total byte length of the source.
    pub fn total_len(&self) -> (r: u64)
        ensures
            r == self.spec_total(),
    {
        self.total
    }

    /// Whether a fetch is currently in flight.
    pub fn is_pending(&self) -> (r: bool)
        ensures
            r == (self.spec_pending() is Some),
    {
        self.pending.is_some()
    }

    /// Begin a read into a buffer of `capacity` bytes.
    ///
    /// A second read while one is in flight is refused outright and
    /// changes nothing.  At the end of the source the read completes
    /// with zero bytes and no fetch.  Otherwise a fetch is issued for
    /// the next `capacity` bytes, clipped to the end of the source, and
    /// recorded as the one in-flight request.
    pub fn begin_read(&mut self, capacity: usize) -> (r: Result<ReadStart, FailureReason>)
        requires
            old(self).wf(),
        ensures
            final(self).wf(),
            final(self).spec_total() == old(self).spec_total(),
            final(self).spec_offset() == old(self).spec_offset(),
            old(self).spec_pending() is Some ==> {
                &&& r == Err::<ReadStart, FailureReason>(FailureReason::ConcurrentReadError)
                &&& *final(self) == *old(self)
            },
            old(self).spec_pending() is None && old(self).spec_offset() == old(self).spec_total()
                ==> {
                &&& r == Ok::<ReadStart, FailureReason>(ReadStart::Eof)
                &&& *final(self) == *old(self)
            },
            old(self).spec_pending() is None && old(self).spec_offset() < old(self).spec_total()
                ==> {
                &&& r matches Ok(ReadStart::Fetch { start, end })
                &&& start == old(self).spec_offset()
                &&& end == if old(self).spec_offset() + capacity <= old(self).spec_total() {
                        old(self).spec_offset() + capacity
                    } else {
                        old(self).spec_total() as int
                    }
                &&& final(self).spec_pending() == Some((start, end))
            },
    {
        if self.pending.is_some() {
            return Err(FailureReason::ConcurrentReadError);
        }
        if self.offset == self.total {
            return Ok(ReadStart::Eof);
        }
        let remaining = self.total - self.offset;
        let end = if capacity as u64 <= remaining {
            self.offset + capacity as u64
        } else {
            self.total
        };
        self.pending = Some((self.offset, end));
        Ok(ReadStart::Fetch { start: self.offset, end })
    }

    /// Complete the in-flight fetch with the bytes the source returned
    /// for the recorded range, appending them to the consumer's buffer
    /// `buf` and advancing the cursor past them.
    pub fn complete_read(&mut self, fetched: &Vec<u8>, buf: &mut Vec<u8>) -> (n: usize)
        requires
            old(self).wf(),
            old(self).spec_pending() matches Some(r) && fetched@.len() == r.1 - r.0,
        ensures
            final(self).wf(),
            final(self).spec_total() == old(self).spec_total(),
            final(self).spec_pending() is None,
            final(self).spec_offset() >= old(self).spec_offset(),
            old(self).spec_pending() matches Some(r) ==> {
                &&& final(self).spec_offset() == r.1
                &&& n == r.1 - r.0
                &&& final(buf)@ == old(buf)@ + fetched@
            },
    {
        let (start, end) = match self.pending {
            Some(r) => r,
            None => (0u64, 0u64),
        };
        self.pending = None;
        self.offset = end;
        let mut i: usize = 0;
        while i < fetched.len()
            invariant
                i <= fetched@.len(),
                buf@ == old(buf)@ + fetched@.subrange(0, i as int),
            decreases fetched@.len() - i,
        {
            buf.push(fetched[i]);
            i = i + 1;
        }
        proof {
            assert(fetched@.subrange(0, fetched@.len() as int) =~= fetched@);
        }
        fetched.len()
    }

    /// The in-flight fetch failed: clear the recorded request and leave
    /// the cursor exactly where it was, so that a retry rereads the
    /// same range.  The read surfaces the source's failure.
    pub fn fail_read(&mut self) -> (r: FailureReason)
        requires
            old(self).wf(),
        ensures
            final(self).wf(),
            r == FailureReason::SourceReadError,
            final(self).spec_offset() == old(self).spec_offset(),
            final(self).spec_total() == old(self).spec_total(),
            final(self).spec_pending() is None,
    {
        self.pending = None;
        FailureReason::SourceReadError
    }
}

/// Answer a range fetch from an in-memory source: the bytes at
/// `[start, end)` of `source`, as a fresh vector.
pub fn copy_range(source: &Vec<u8>, start: u64, end: u64) -> (chunk: Vec<u8>)
    requires
        start <= end <= source@.len(),
    ensures
        chunk@ == source@.subrange(start as int, end as int),
{
    let mut chunk: Vec<u8> = Vec::new();
    let len = source.len();
    let mut i: usize = start as usize;
    while i < end as usize
        invariant
            start <= i <= end <= source@.len(),
            source@.len() == len,
            chunk@ == source@.subrange(start as int, i as int),
        decreases end - i,
    {
        chunk.push(source[i]);
        proof {
            assert(source@.subrange(start as int, i + 1) =~= source@
                .subrange(start as int, i as int)
                .push(source@[i as int]));
        }
        i = i + 1;
    }
    chunk
}

/// Pull a whole in-memory chunk source through the adapter with reads
/// of `capacity` bytes each, as a consumer that drains the stream
/// would: every byte of the source is delivered exactly once and in
/// order, so the bytes handed out are exactly the source.
pub fn read_all(source: &Vec<u8>, capacity: usize) -> (out: Vec<u8>)
    requires
        capacity >= 1,
    ensures
        out@ == source@,
{
    let failures: Vec<bool> = Vec::new();
    read_all_with_retries(source, capacity, &failures)
}

/// Pull a whole in-memory chunk source through the adapter while some
/// of the fetches fail: `failures` says, fetch by fetch, whether the
/// source answers with an error instead of bytes (once the plan is
/// exhausted the source answers normally).  However the failures fall,
/// every failed read leaves the cursor where it was, the retry rereads
/// the same range, and the bytes handed out are still exactly the
/// source: nothing is skipped and nothing is delivered twice.
pub fn read_all_with_retries(source: &Vec<u8>, capacity: usize, failures: &Vec<bool>) -> (out: Vec<
    u8,
>)
    requires
        capacity >= 1,
    ensures
        out@ == source@,
{
    let total = source.len() as u64;
    let mut cursor = ChunkCursor::new(total);
    let mut out: Vec<u8> = Vec::new();
    let mut f: usize = 0;
    loop
        invariant
            capacity >= 1,
            cursor.wf(),
            cursor.spec_total() == source@.len(),
            cursor.spec_pending() is None,
            f <= failures@.len(),
            out@ == source@.subrange(0, cursor.spec_offset() as int),
        ensures
            cursor.spec_offset() == cursor.spec_total(),
            out@ == source@.subrange(0, cursor.spec_offset() as int),
            cursor.spec_total() == source@.len(),
        decreases failures@.len() - f, source@.len() - cursor.spec_offset(),
    {
        let step = cursor.begin_read(capacity);
        match step {
            Ok(ReadStart::Fetch { start, end }) => {
                if f < failures.len() && failures[f] {
                    f = f + 1;
                    cursor.fail_read();
                } else {
                    let fetched = copy_range(source, start, end);
                    cursor.complete_read(&fetched, &mut out);
                    proof {
                        assert(source@.subrange(0, end as int) =~= source@
                            .subrange(0, start as int)
                            .add(source@.subrange(start as int, end as int)));
                    }
                }
            },
            _ => {
                break;
            },
        }
    }
    proof {
        assert(source@.subrange(0, source@.len() as int) =~= source@);
    }
    out
}

} // verus!
