//! Cursors of the operations that write a whole buffer, a whole chunk or a
//! whole list of chunks: each step feeds in what one write-family step gave,
//! and the cursor says whether the operation resolved.
use vstd::prelude::*;

use crate::conn::Poll;
use crate::error::WriteError;
use crate::outcome::Written;

verus! {

/// The sum of a sequence of lengths.
pub open spec fn total(s: Seq<usize>) -> nat
    decreases s.len(),
{
    if s.len() == 0 {
        0
    } else {
        total(s.drop_last()) + s.last() as nat
    }
}

/// Whether `w` can be what a chunked write of `lens[offset..]` reported: whole
/// chunks from `offset` on, then part of the next chunk if there is one.
pub open spec fn written_fits(lens: Seq<usize>, offset: int, w: Written) -> bool {
    let end = offset + w.chunks;
    &&& 0 <= offset <= end <= lens.len()
    &&& total(lens.subrange(offset, end)) <= w.bytes
    &&& end < lens.len() ==> w.bytes - total(lens.subrange(offset, end)) <= lens[end]
    &&& end == lens.len() ==> w.bytes == total(lens.subrange(offset, end))
}

/// The lengths left after a write reported `w` at `offset`: the whole chunks
/// are emptied and the next one loses what was taken of it.
pub open spec fn consumed(lens: Seq<usize>, offset: int, w: Written) -> Seq<usize> {
    let end = offset + w.chunks;
    let partial = w.bytes - total(lens.subrange(offset, end));
    Seq::new(
        lens.len(),
        |i: int|
            if offset <= i < end {
                0usize
            } else if i == end {
                (lens[i] - partial) as usize
            } else {
                lens[i]
            },
    )
}

proof fn lemma_total_push(s: Seq<usize>, x: usize)
    ensures
        total(s.push(x)) == total(s) + x,
{
    assert(s.push(x).drop_last() =~= s);
}

proof fn lemma_total_update(s: Seq<usize>, i: int, v: usize)
    requires
        0 <= i < s.len(),
    ensures
        total(s.update(i, v)) == total(s) - s[i] + v,
    decreases s.len(),
{
    if i == s.len() - 1 {
        assert(s.update(i, v).drop_last() =~= s.drop_last());
    } else {
        lemma_total_update(s.drop_last(), i, v);
        assert(s.update(i, v).drop_last() =~= s.drop_last().update(i, v));
    }
}

proof fn lemma_total_extend(s: Seq<usize>, a: int, b: int)
    requires
        0 <= a <= b < s.len(),
    ensures
        total(s.subrange(a, b + 1)) == total(s.subrange(a, b)) + s[b],
{
    assert(s.subrange(a, b + 1).drop_last() =~= s.subrange(a, b));
}

proof fn lemma_total_mono(s: Seq<usize>, a: int, b: int, c: int)
    requires
        0 <= a <= b <= c <= s.len(),
    ensures
        total(s.subrange(a, b)) <= total(s.subrange(a, c)),
    decreases c - b,
{
    if b < c {
        lemma_total_mono(s, a, b, c - 1);
        lemma_total_extend(s, a, c - 1);
    }
}

proof fn lemma_total_zeros(s: Seq<usize>)
    requires
        forall|i: int| 0 <= i < s.len() ==> s[i] == 0,
    ensures
        total(s) == 0,
    decreases s.len(),
{
    if s.len() > 0 {
        lemma_total_zeros(s.drop_last());
    }
}

/// Cursor of writing a whole buffer of `len` bytes, `offset` of them written so far.
#[derive(Debug)]
pub struct WriteAll {
    len: usize,
    offset: usize,
}

impl WriteAll {
    pub closed spec fn spec_len(&self) -> nat {
        self.len as nat
    }

    pub closed spec fn spec_offset(&self) -> nat {
        self.offset as nat
    }

    pub open spec fn wf(&self) -> bool {
        self.spec_offset() <= self.spec_len()
    }

    /// A cursor at the start of a `len`-byte buffer.
    pub fn new(len: usize) -> (r: WriteAll)
        ensures
            r.wf(),
            r.spec_len() == len,
            r.spec_offset() == 0,
    {
        WriteAll { len, offset: 0 }
    }

    /// How many bytes have been written.
    pub fn offset(&self) -> (r: usize)
        ensures
            r == self.spec_offset(),
    {
        self.offset
    }

    /// Whether the whole buffer has been written.
    pub fn is_done(&self) -> (r: bool)
        ensures
            r == (self.spec_offset() == self.spec_len()),
    {
        self.offset == self.len
    }

    /// Feeds in one single-write step on the rest of the buffer. Pending and
    /// errors resolve the operation as they are; written bytes move the
    /// cursor, and the operation resolves with `Ok` exactly when that reaches
    /// the end; `None` asks for another step.
    pub fn advance(&mut self, step: Poll<Result<usize, WriteError>>) -> (r: Option<
        Poll<Result<(), WriteError>>,
    >)
        requires
            old(self).wf(),
            step matches Poll::Ready(Ok(n)) ==> old(self).spec_offset() + n <= old(self).spec_len(),
        ensures
            final(self).wf(),
            final(self).spec_len() == old(self).spec_len(),
            match step {
                Poll::Pending => r == Some(Poll::<Result<(), WriteError>>::Pending) && final(self).spec_offset() == old(self).spec_offset(),
                Poll::Ready(Err(e)) => r == Some(Poll::Ready(Err::<(), WriteError>(e))) && final(self).spec_offset() == old(self).spec_offset(),
                Poll::Ready(Ok(n)) => final(self).spec_offset() == old(self).spec_offset() + n && (
                if final(self).spec_offset() == final(self).spec_len() {
                    r == Some(Poll::Ready(Ok::<(), WriteError>(())))
                } else {
                    r is None
                }),
            },
    {
        match step {
            Poll::Pending => Some(Poll::Pending),
            Poll::Ready(Err(e)) => Some(Poll::Ready(Err(e))),
            Poll::Ready(Ok(n)) => {
                self.offset = self.offset + n;
                if self.offset == self.len {
                    Some(Poll::Ready(Ok(())))
                } else {
                    None
                }
            },
        }
    }
}

/// Cursor of writing one whole chunk, `remaining` of its bytes still to go.
pub struct WriteChunk {
    remaining: usize,
    initial: Ghost<nat>,
}

impl WriteChunk {
    pub closed spec fn spec_remaining(&self) -> nat {
        self.remaining as nat
    }

    /// The length of the chunk when the operation began.
    pub closed spec fn spec_initial(&self) -> nat {
        self.initial@
    }

    pub open spec fn wf(&self) -> bool {
        self.spec_remaining() <= self.spec_initial()
    }

    /// The bytes that the steps so far reported as written.
    pub open spec fn spec_reported(&self) -> nat {
        (self.spec_initial() - self.spec_remaining()) as nat
    }

    /// A cursor at the start of a `len`-byte chunk.
    pub fn new(len: usize) -> (r: WriteChunk)
        ensures
            r.wf(),
            r.spec_initial() == len,
            r.spec_remaining() == len,
    {
        WriteChunk { remaining: len, initial: Ghost(len as nat) }
    }

    /// How many bytes of the chunk are left.
    pub fn remaining(&self) -> (r: usize)
        ensures
            r == self.spec_remaining(),
    {
        self.remaining
    }

    /// Whether the whole chunk has been written.
    pub fn is_done(&self) -> (r: bool)
        ensures
            r == (self.spec_remaining() == 0),
    {
        self.remaining == 0
    }

    /// Feeds in one chunked-write step on the chunk. Pending and errors resolve
    /// the operation as they are; written bytes are taken off the chunk, and
    /// the operation resolves with `Ok` exactly when none is left; `None` asks
    /// for another step.
    pub fn advance(&mut self, step: Poll<Result<Written, WriteError>>) -> (r: Option<
        Poll<Result<(), WriteError>>,
    >)
        requires
            old(self).wf(),
            step matches Poll::Ready(Ok(w)) ==> written_fits(
                seq![old(self).spec_remaining() as usize],
                0,
                w,
            ),
        ensures
            final(self).wf(),
            final(self).spec_initial() == old(self).spec_initial(),
            match step {
                Poll::Pending => r == Some(Poll::<Result<(), WriteError>>::Pending)
                    && final(self).spec_remaining() == old(self).spec_remaining(),
                Poll::Ready(Err(e)) => r == Some(Poll::Ready(Err::<(), WriteError>(e)))
                    && final(self).spec_remaining() == old(self).spec_remaining(),
                Poll::Ready(Ok(w)) => final(self).spec_reported() == old(self).spec_reported()
                    + w.bytes && (if final(self).spec_remaining() == 0 {
                    r == Some(Poll::Ready(Ok::<(), WriteError>(())))
                } else {
                    r is None
                }),
            },
    {
        match step {
            Poll::Pending => Some(Poll::Pending),
            Poll::Ready(Err(e)) => Some(Poll::Ready(Err(e))),
            Poll::Ready(Ok(w)) => {
                proof {
                    let s = seq![self.remaining];
                    assert(s.subrange(0, 0) =~= Seq::<usize>::empty());
                    assert(s.subrange(0, 1) =~= Seq::<usize>::empty().push(self.remaining));
                    lemma_total_push(Seq::<usize>::empty(), self.remaining);
                }
                self.remaining = self.remaining - w.bytes;
                if self.remaining == 0 {
                    Some(Poll::Ready(Ok(())))
                } else {
                    None
                }
            },
        }
    }
}

/// Cursor of writing a whole list of chunks: the bytes left of each chunk,
/// and the index of the first chunk not yet fully written.
pub struct WriteAllChunks {
    lens: Vec<usize>,
    offset: usize,
    initial: Ghost<Seq<usize>>,
    reported: Ghost<nat>,
}

impl WriteAllChunks {
    pub closed spec fn spec_lens(&self) -> Seq<usize> {
        self.lens@
    }

    pub closed spec fn spec_offset(&self) -> nat {
        self.offset as nat
    }

    /// The chunk lengths when the operation began.
    pub closed spec fn spec_initial(&self) -> Seq<usize> {
        self.initial@
    }

    /// The bytes that the steps so far reported as written, summed.
    pub closed spec fn spec_reported(&self) -> nat {
        self.reported@
    }

    pub open spec fn wf(&self) -> bool {
        &&& self.spec_offset() <= self.spec_lens().len()
        &&& self.spec_lens().len() == self.spec_initial().len()
        &&& forall|i: int| 0 <= i < self.spec_offset() ==> #[trigger] self.spec_lens()[i] == 0
        &&& self.spec_reported() + total(self.spec_lens()) == total(self.spec_initial())
    }

    /// A cursor at the start of chunks of the given lengths.
    pub fn new(lens: Vec<usize>) -> (r: WriteAllChunks)
        ensures
            r.wf(),
            r.spec_lens() == lens@,
            r.spec_initial() == lens@,
            r.spec_offset() == 0,
            r.spec_reported() == 0,
    {
        let ghost initial = lens@;
        WriteAllChunks { lens, offset: 0, initial: Ghost(initial), reported: Ghost(0) }
    }

    /// The index of the first chunk not yet fully written.
    pub fn offset(&self) -> (r: usize)
        ensures
            r == self.spec_offset(),
    {
        self.offset
    }

    /// The bytes left of chunk `i`.
    pub fn remaining(&self, i: usize) -> (r: usize)
        requires
            i < self.spec_lens().len(),
        ensures
            r == self.spec_lens()[i as int],
    {
        self.lens[i]
    }

    /// Whether every chunk has been written.
    pub fn is_done(&self) -> (r: bool)
        requires
            self.wf(),
        ensures
            r == (self.spec_offset() == self.spec_lens().len()),
    {
        self.offset == self.lens.len()
    }

    /// Whether `w` can be the progress of a chunked write of the chunks from
    /// the cursor on.
    pub fn accepts(&self, w: Written) -> (r: bool)
        requires
            self.wf(),
        ensures
            r == written_fits(self.spec_lens(), self.spec_offset() as int, w),
    {
        if w.chunks > self.lens.len() - self.offset {
            return false;
        }
        let start = self.offset;
        let end = start + w.chunks;
        let mut rem: usize = w.bytes;
        let mut i: usize = start;
        while i < end
            invariant
                start <= i <= end <= self.lens@.len(),
                start == self.offset,
                end == start + w.chunks,
                rem as int == w.bytes - total(self.lens@.subrange(start as int, i as int)),
            decreases end - i,
        {
            proof {
                lemma_total_extend(self.lens@, start as int, i as int);
                lemma_total_mono(self.lens@, start as int, i as int + 1, end as int);
            }
            if self.lens[i] > rem {
                return false;
            }
            rem = rem - self.lens[i];
            i = i + 1;
        }
        if end < self.lens.len() {
            rem <= self.lens[end]
        } else {
            rem == 0
        }
    }

    /// Feeds in one chunked-write step on the chunks from the cursor on.
    /// Pending and errors resolve the operation as they are; progress empties
    /// the whole chunks it counts, takes the rest of its bytes off the next
    /// chunk and moves the cursor past the whole chunks; the operation resolves
    /// with `Ok` exactly when the cursor reaches the end; `None` asks for
    /// another step.
    pub fn advance(&mut self, step: Poll<Result<Written, WriteError>>) -> (r: Option<
        Poll<Result<(), WriteError>>,
    >)
        requires
            old(self).wf(),
            step matches Poll::Ready(Ok(w)) ==> written_fits(
                old(self).spec_lens(),
                old(self).spec_offset() as int,
                w,
            ),
        ensures
            final(self).wf(),
            final(self).spec_initial() == old(self).spec_initial(),
            match step {
                Poll::Pending => r == Some(Poll::<Result<(), WriteError>>::Pending)
                    && *final(self) == *old(self),
                Poll::Ready(Err(e)) => r == Some(Poll::Ready(Err::<(), WriteError>(e)))
                    && *final(self) == *old(self),
                Poll::Ready(Ok(w)) => {
                    &&& final(self).spec_lens() == consumed(
                        old(self).spec_lens(),
                        old(self).spec_offset() as int,
                        w,
                    )
                    &&& final(self).spec_offset() == old(self).spec_offset() + w.chunks
                    &&& final(self).spec_reported() == old(self).spec_reported() + w.bytes
                    &&& if final(self).spec_offset() == final(self).spec_lens().len() {
                        r == Some(Poll::Ready(Ok::<(), WriteError>(())))
                    } else {
                        r is None
                    }
                },
            },
    {
        match step {
            Poll::Pending => Some(Poll::Pending),
            Poll::Ready(Err(e)) => Some(Poll::Ready(Err(e))),
            Poll::Ready(Ok(w)) => {
                let ghost old_lens = self.lens@;
                let n = self.lens.len();
                let start = self.offset;
                let end = start + w.chunks;
                let mut rem: usize = w.bytes;
                let mut i: usize = start;
                while i < end
                    invariant
                        start <= i <= end <= self.lens@.len(),
                        self.lens@.len() == old_lens.len(),
                        self.offset == start,
                        self.initial == old(self).initial,
                        self.reported == old(self).reported,
                        old(self).wf(),
                        old_lens == old(self).lens@,
                        end == start + w.chunks,
                        written_fits(old_lens, start as int, w),
                        rem as int == w.bytes - total(old_lens.subrange(start as int, i as int)),
                        forall|j: int| start <= j < i ==> #[trigger] self.lens@[j] == 0,
                        forall|j: int|
                            0 <= j < old_lens.len() && !(start <= j < i) ==> #[trigger] self.lens@[j]
                                == old_lens[j],
                        total(self.lens@) == total(old_lens) - total(
                            old_lens.subrange(start as int, i as int),
                        ),
                    decreases end - i,
                {
                    proof {
                        lemma_total_extend(old_lens, start as int, i as int);
                        lemma_total_mono(old_lens, start as int, i as int + 1, end as int);
                        lemma_total_update(self.lens@, i as int, 0);
                    }
                    rem = rem - self.lens[i];
                    self.lens.set(i, 0);
                    i = i + 1;
                }
                if end < self.lens.len() {
                    let l = self.lens[end];
                    proof {
                        lemma_total_update(self.lens@, end as int, (l - rem) as usize);
                    }
                    self.lens.set(end, l - rem);
                }
                proof {
                    assert(self.lens@ =~= consumed(old_lens, start as int, w));
                }
                self.offset = end;
                self.reported = Ghost((self.reported@ + w.bytes) as nat);
                if self.offset == self.lens.len() {
                    Some(Poll::Ready(Ok(())))
                } else {
                    None
                }
            },
        }
    }
}

/// Once every chunk of a list has been written, the bytes that the steps
/// reported add up to the lengths of all the chunks.
pub proof fn lemma_all_chunks_reported(c: WriteAllChunks)
    requires
        c.wf(),
        c.spec_offset() == c.spec_lens().len(),
    ensures
        c.spec_reported() == total(c.spec_initial()),
{
    lemma_total_zeros(c.spec_lens());
}

/// Once a whole chunk has been written, the bytes that the steps reported add
/// up to its length.
pub proof fn lemma_chunk_reported(c: WriteChunk)
    requires
        c.wf(),
        c.spec_remaining() == 0,
    ensures
        c.spec_reported() == c.spec_initial(),
{
}

} // verus!
