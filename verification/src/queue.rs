//! The bounded chunk queue of the decoupled relay strategy.
//!
//! In the decoupled strategy each direction is split into a reader task
//! (socket to queue) and a writer task (queue to socket), joined by this
//! bounded queue of byte chunks.  A full queue refuses further chunks,
//! which suspends the reader — backpressure — so memory used by queued
//! but unwritten data never exceeds capacity times the chunk bound.  On
//! read end-of-stream the reader closes the queue; the writer drains the
//! remaining chunks and then sees the end-of-stream signal.
//!
//! The ghost `pushed` and `popped` histories record every chunk that
//! entered and left the queue, so the contracts can say that the writer
//! receives exactly the reader's chunks, in order.

use vstd::prelude::*;

verus! {

/// What became of a chunk offered to the queue.
pub enum PushOutcome {
    /// The chunk was enqueued.
    Enqueued,
    /// The queue is full: the chunk comes back and the reader must wait
    /// until the writer has drained something (backpressure).
    Full { chunk: Vec<u8> },
    /// The queue was already closed: the chunk comes back.
    Refused { chunk: Vec<u8> },
}

/// What the writer got when it asked for the next chunk.
pub enum PopOutcome {
    /// The oldest queued chunk.
    Chunk { chunk: Vec<u8> },
    /// Nothing queued yet, but the reader may still send: wait.
    Empty,
    /// Nothing queued and the queue is closed: end of stream, the
    /// writer flushes and half-closes its socket.
    Finished,
}

/// A bounded FIFO of byte chunks with an end-of-stream marker.
pub struct ChunkQueue {
    /// The queued chunks, oldest first.
    pub chunks: Vec<Vec<u8>>,
    /// How many chunks may be queued at once.
    pub capacity: usize,
    /// The largest chunk the reader may offer (its read-buffer size).
    pub max_chunk: usize,
    /// Whether the reader has closed its end (end of stream).
    pub closed: bool,
    /// Every chunk ever enqueued, in order.
    pub pushed: Ghost<Seq<Seq<u8>>>,
    /// Every chunk ever handed to the writer, in order.
    pub popped: Ghost<Seq<Seq<u8>>>,
}

/// The bytes held by a sequence of chunks.
pub open spec fn chunk_bytes(chunks: Seq<Seq<u8>>) -> int
    decreases chunks.len(),
{
    if chunks.len() == 0 {
        0
    } else {
        chunks[0].len() + chunk_bytes(chunks.drop_first())
    }
}

impl ChunkQueue {
    /// The queued-but-unwritten chunks, as plain sequences.
    pub open spec fn pending(self) -> Seq<Seq<u8>> {
        self.chunks@.map_values(|c: Vec<u8>| c@)
    }

    /// Well-formedness: the queue never holds more than `capacity`
    /// chunks, none larger than `max_chunk`, and what was pushed is
    /// what was popped followed by what is still pending.
    pub open spec fn wf(self) -> bool {
        &&& self.capacity >= 1
        &&& self.max_chunk >= 1
        &&& self.chunks@.len() <= self.capacity
        &&& (forall|i: int|
            0 <= i < self.chunks@.len() ==> (#[trigger] self.chunks@[i])@.len()
                <= self.max_chunk)
        &&& self.pushed@ == self.popped@ + self.pending()
    }

    /// An empty, open queue.
    pub fn new(capacity: usize, max_chunk: usize) -> (q: ChunkQueue)
        requires
            capacity >= 1,
            max_chunk >= 1,
        ensures
            q.wf(),
            q.capacity == capacity,
            q.max_chunk == max_chunk,
            !q.closed,
            q.pending() == Seq::<Seq<u8>>::empty(),
            q.pushed@ == Seq::<Seq<u8>>::empty(),
            q.popped@ == Seq::<Seq<u8>>::empty(),
    {
        let q = ChunkQueue {
            chunks: Vec::new(),
            capacity,
            max_chunk,
            closed: false,
            pushed: Ghost(Seq::empty()),
            popped: Ghost(Seq::empty()),
        };
        proof {
            assert(q.pending() =~= Seq::<Seq<u8>>::empty());
        }
        q
    }

    /// How many chunks are queued.
    pub fn len(&self) -> (n: usize)
        ensures
            n == self.pending().len(),
    {
        self.chunks.len()
    }

    /// Whether the reader has closed its end.
    pub fn is_closed(&self) -> (b: bool)
        ensures
            b == self.closed,
    {
        self.closed
    }

    /// The reader offers a chunk.  It is enqueued only while the queue
    /// is open and below capacity; a full queue hands the chunk back,
    /// making the reader wait — this is the backpressure point.
    pub fn push(&mut self, chunk: Vec<u8>) -> (r: PushOutcome)
        requires
            old(self).wf(),
            1 <= chunk@.len() <= old(self).max_chunk,
        ensures
            final(self).wf(),
            final(self).capacity == old(self).capacity,
            final(self).max_chunk == old(self).max_chunk,
            final(self).closed == old(self).closed,
            final(self).popped@ == old(self).popped@,
            (old(self).closed ==> {
                &&& r matches PushOutcome::Refused { chunk: c } && c@ == chunk@
                &&& final(self).pending() == old(self).pending()
                &&& final(self).pushed@ == old(self).pushed@
            }),
            (!old(self).closed && old(self).pending().len() < old(self).capacity ==> {
                &&& r is Enqueued
                &&& final(self).pending() == old(self).pending().push(chunk@)
                &&& final(self).pushed@ == old(self).pushed@.push(chunk@)
            }),
            (!old(self).closed && old(self).pending().len() >= old(self).capacity ==> {
                &&& r matches PushOutcome::Full { chunk: c } && c@ == chunk@
                &&& final(self).pending() == old(self).pending()
                &&& final(self).pushed@ == old(self).pushed@
            }),
    {
        if self.closed {
            PushOutcome::Refused { chunk }
        } else if self.chunks.len() < self.capacity {
            let ghost c = chunk@;
            self.chunks.push(chunk);
            proof {
                self.pushed@ = self.pushed@.push(c);
                assert(self.pending() =~= old(self).pending().push(c));
                assert(self.pushed@ =~= self.popped@ + self.pending());
            }
            PushOutcome::Enqueued
        } else {
            PushOutcome::Full { chunk }
        }
    }

    /// The writer takes the oldest chunk, or learns that it must wait
    /// (open but empty) or that the stream has ended (closed and
    /// drained).
    pub fn pop(&mut self) -> (r: PopOutcome)
        requires
            old(self).wf(),
        ensures
            final(self).wf(),
            final(self).capacity == old(self).capacity,
            final(self).max_chunk == old(self).max_chunk,
            final(self).closed == old(self).closed,
            final(self).pushed@ == old(self).pushed@,
            (old(self).pending().len() > 0 ==> {
                &&& r matches PopOutcome::Chunk { chunk: c } && c@ == old(self).pending()[0]
                &&& final(self).pending() == old(self).pending().drop_first()
                &&& final(self).popped@ == old(self).popped@.push(old(self).pending()[0])
            }),
            (old(self).pending().len() == 0 && !old(self).closed ==> {
                &&& r is Empty
                &&& final(self).pending() == old(self).pending()
                &&& final(self).popped@ == old(self).popped@
            }),
            (old(self).pending().len() == 0 && old(self).closed ==> {
                &&& r is Finished
                &&& final(self).pending() == old(self).pending()
                &&& final(self).popped@ == old(self).popped@
            }),
    {
        if self.chunks.len() > 0 {
            let chunk = self.chunks.remove(0);
            proof {
                self.popped@ = self.popped@.push(chunk@);
                assert(self.pending() =~= old(self).pending().drop_first());
                assert(self.pushed@ =~= self.popped@ + self.pending());
            }
            PopOutcome::Chunk { chunk }
        } else if self.closed {
            PopOutcome::Finished
        } else {
            PopOutcome::Empty
        }
    }

    /// The reader closes its end after read end-of-stream: queued
    /// chunks stay for the writer to drain, then `pop` reports the end
    /// of the stream.
    pub fn close(&mut self)
        requires
            old(self).wf(),
        ensures
            final(self).wf(),
            final(self).closed,
            final(self).capacity == old(self).capacity,
            final(self).max_chunk == old(self).max_chunk,
            final(self).pending() == old(self).pending(),
            final(self).pushed@ == old(self).pushed@,
            final(self).popped@ == old(self).popped@,
    {
        self.closed = true;
    }
}

/// A sequence of at most `count` chunks, each of at most `bound` bytes,
/// holds at most `count * bound` bytes.
proof fn lemma_chunk_bytes_bounded(chunks: Seq<Seq<u8>>, count: int, bound: int)
    requires
        0 <= chunks.len() <= count,
        bound >= 0,
        forall|i: int| 0 <= i < chunks.len() ==> (#[trigger] chunks[i]).len() <= bound,
    ensures
        chunk_bytes(chunks) <= count * bound,
    decreases chunks.len(),
{
    if chunks.len() == 0 {
        assert(count * bound >= 0) by (nonlinear_arith)
            requires
                count >= 0,
                bound >= 0,
        ;
    } else {
        lemma_chunk_bytes_bounded(chunks.drop_first(), count - 1, bound);
        assert((count - 1) * bound + bound <= count * bound) by (nonlinear_arith);
    }
}

/// Law (backpressure bounds memory): a well-formed queue never holds
/// more than `capacity * max_chunk` bytes of queued-but-unwritten data,
/// however fast the reader and however stalled the writer.
pub proof fn lemma_queued_bytes_bounded(q: ChunkQueue)
    requires
        q.wf(),
    ensures
        chunk_bytes(q.pending()) <= q.capacity * q.max_chunk,
{
    lemma_chunk_bytes_bounded(q.pending(), q.capacity as int, q.max_chunk as int);
}

/// Law (byte order): flattened to plain bytes, what the reader has read
/// is what the writer has already received followed by what is still
/// queued — within a direction, bytes reach the destination socket in
/// exactly the order they were read from the source socket.
pub proof fn lemma_fifo_bytes(q: ChunkQueue)
    requires
        q.wf(),
    ensures
        q.pushed@.flatten() == q.popped@.flatten() + q.pending().flatten(),
{
    vstd::seq_lib::lemma_flatten_concat(q.popped@, q.pending());
}

/// Law (strict FIFO): the chunks handed to the writer are exactly the
/// first chunks the reader enqueued, in the same order, and what is
/// still pending is the rest, in order.
pub proof fn lemma_fifo_order(q: ChunkQueue)
    requires
        q.wf(),
    ensures
        q.popped@ == q.pushed@.take(q.popped@.len() as int),
        q.pending() == q.pushed@.skip(q.popped@.len() as int),
{
    assert(q.popped@ =~= q.pushed@.take(q.popped@.len() as int));
    assert(q.pending() =~= q.pushed@.skip(q.popped@.len() as int));
}

} // verus!
