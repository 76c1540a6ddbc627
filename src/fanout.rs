use vstd::prelude::*;

verus! {

/// The samples of a sequence of chunks, in order.
pub open spec fn flatten(chunks: Seq<Seq<i16>>) -> Seq<i16>
    decreases chunks.len(),
{
    if chunks.len() == 0 {
        Seq::empty()
    } else {
        chunks[0] + flatten(chunks.drop_first())
    }
}

/// Appending a chunk appends its samples.
pub proof fn lemma_flatten_push(chunks: Seq<Seq<i16>>, chunk: Seq<i16>)
    ensures
        flatten(chunks.push(chunk)) == flatten(chunks) + chunk,
    decreases chunks.len(),
{
    if chunks.len() == 0 {
        assert(chunks.push(chunk).drop_first() =~= Seq::<Seq<i16>>::empty());
        assert(flatten(chunks.push(chunk).drop_first()) =~= Seq::<i16>::empty());
        assert(chunks.push(chunk)[0] == chunk);
        assert(flatten(chunks.push(chunk)) =~= chunk);
    } else {
        assert(chunks.push(chunk).drop_first() =~= chunks.drop_first().push(chunk));
        lemma_flatten_push(chunks.drop_first(), chunk);
        assert(flatten(chunks.push(chunk)) =~= flatten(chunks) + chunk);
    }
}

/// Copies a chunk sample by sample.
pub fn copy_chunk(chunk: &Vec<i16>) -> (r: Vec<i16>)
    ensures
        r@ == chunk@,
{
    let mut out: Vec<i16> = Vec::with_capacity(chunk.len());
    let mut i: usize = 0;
    while i < chunk.len()
        invariant
            i <= chunk@.len(),
            out@ =~= chunk@.take(i as int),
        decreases chunk@.len() - i,
    {
        out.push(chunk[i]);
        i = i + 1;
        assert(out@ =~= chunk@.take(i as int));
    }
    assert(out@ =~= chunk@);
    out
}

/// Routes every chunk to the storage sink and to the playback sink, so that both
/// see the same samples in the same order.
pub struct FanOut {
    stored: Ghost<Seq<i16>>,
    submitted: Ghost<Seq<i16>>,
}

impl FanOut {
    /// Every sample routed to storage, in order.
    pub closed spec fn stored(&self) -> Seq<i16> {
        self.stored@
    }

    /// Every sample routed to playback, in order.
    pub closed spec fn submitted(&self) -> Seq<i16> {
        self.submitted@
    }

    pub fn new() -> (r: FanOut)
        ensures
            r.stored() == Seq::<i16>::empty(),
            r.submitted() == Seq::<i16>::empty(),
    {
        FanOut { stored: Ghost(Seq::empty()), submitted: Ghost(Seq::empty()) }
    }

    /// Splits a chunk into the copy to write to storage (first) and the copy to
    /// submit for playback (second). The storage sink sees exactly what the playback
    /// sink sees, element for element and in order.
    pub fn route(&mut self, chunk: Vec<i16>) -> (r: (Vec<i16>, Vec<i16>))
        requires
            old(self).stored() == old(self).submitted(),
        ensures
            r.0@ == chunk@,
            r.1@ == chunk@,
            final(self).stored() == old(self).stored() + chunk@,
            final(self).submitted() == old(self).submitted() + chunk@,
            final(self).stored() == final(self).submitted(),
    {
        let for_storage = copy_chunk(&chunk);
        self.stored = Ghost(self.stored@ + chunk@);
        self.submitted = Ghost(self.submitted@ + chunk@);
        (for_storage, chunk)
    }
}

/// What a consumer gets from a [`ChunkQueue`].
pub enum Received {
    /// The oldest chunk still queued.
    Chunk(Vec<i16>),
    /// Nothing queued yet, and the producer has not finished.
    Pending,
    /// The producer has finished and every chunk has been taken.
    Closed,
}

/// A bounded, ordered, single-producer/single-consumer queue of chunks. Closing it
/// is the producer's completion signal; the consumer still drains what is queued.
pub struct ChunkQueue {
    chunks: Vec<Vec<i16>>,
    capacity: usize,
    closed: bool,
    sent: Ghost<Seq<i16>>,
    received: Ghost<Seq<i16>>,
}

impl ChunkQueue {
    /// The queued chunks, oldest first.
    pub closed spec fn contents(&self) -> Seq<Seq<i16>> {
        self.chunks@.map_values(|c: Vec<i16>| c@)
    }

    pub closed spec fn capacity(&self) -> nat {
        self.capacity as nat
    }

    pub closed spec fn is_closed(&self) -> bool {
        self.closed
    }

    /// Every sample the producer has enqueued, in order.
    pub closed spec fn sent(&self) -> Seq<i16> {
        self.sent@
    }

    /// Every sample the consumer has taken, in order.
    pub closed spec fn received(&self) -> Seq<i16> {
        self.received@
    }

    pub closed spec fn wf(&self) -> bool {
        &&& self.capacity > 0
        &&& self.chunks@.len() <= self.capacity
        &&& self.received@ + flatten(self.contents()) == self.sent@
    }

    pub fn new(capacity: usize) -> (r: ChunkQueue)
        requires
            capacity > 0,
        ensures
            r.wf(),
            r.capacity() == capacity,
            !r.is_closed(),
            r.contents() == Seq::<Seq<i16>>::empty(),
            r.sent() == Seq::<i16>::empty(),
            r.received() == Seq::<i16>::empty(),
    {
        let q = ChunkQueue {
            chunks: Vec::new(),
            capacity,
            closed: false,
            sent: Ghost(Seq::empty()),
            received: Ghost(Seq::empty()),
        };
        assert(q.contents() =~= Seq::<Seq<i16>>::empty());
        assert(q.received@ + flatten(q.contents()) =~= q.sent@);
        q
    }

    /// Enqueues a chunk. A full or closed queue hands the chunk back unchanged
    /// (a producer facing a full queue waits and tries again).
    pub fn send(&mut self, chunk: Vec<i16>) -> (r: Result<(), Vec<i16>>)
        requires
            old(self).wf(),
        ensures
            final(self).wf(),
            final(self).capacity() == old(self).capacity(),
            final(self).is_closed() == old(self).is_closed(),
            final(self).received() == old(self).received(),
            (old(self).is_closed() || old(self).contents().len() >= old(self).capacity()) ==> r
                == Err::<(), Vec<i16>>(chunk) && final(self).contents() == old(self).contents()
                && final(self).sent() == old(self).sent(),
            !(old(self).is_closed() || old(self).contents().len() >= old(self).capacity()) ==> r
                is Ok && final(self).contents() == old(self).contents().push(chunk@)
                && final(self).sent() == old(self).sent() + chunk@,
    {
        if self.closed || self.chunks.len() >= self.capacity {
            return Err(chunk);
        }
        proof {
            lemma_flatten_push(self.contents(), chunk@);
        }
        let ghost old_contents = self.contents();
        self.sent = Ghost(self.sent@ + chunk@);
        self.chunks.push(chunk);
        assert(self.contents() =~= old_contents.push(chunk@));
        assert(self.received@ + flatten(self.contents()) =~= self.sent@);
        Ok(())
    }

    /// The producer's completion signal.
    pub fn close(&mut self)
        requires
            old(self).wf(),
        ensures
            final(self).wf(),
            final(self).is_closed(),
            final(self).capacity() == old(self).capacity(),
            final(self).contents() == old(self).contents(),
            final(self).sent() == old(self).sent(),
            final(self).received() == old(self).received(),
    {
        self.closed = true;
    }

    /// Takes the oldest queued chunk. `Closed` comes only once the producer has
    /// finished and the queue is drained: then the consumer has received every sample
    /// that was ever sent, in order.
    pub fn recv(&mut self) -> (r: Received)
        requires
            old(self).wf(),
        ensures
            final(self).wf(),
            final(self).capacity() == old(self).capacity(),
            final(self).is_closed() == old(self).is_closed(),
            final(self).sent() == old(self).sent(),
            old(self).contents().len() > 0 ==> {
                &&& r matches Received::Chunk(c)
                &&& c@ == old(self).contents()[0]
                &&& final(self).contents() == old(self).contents().drop_first()
                &&& final(self).received() == old(self).received() + c@
            },
            old(self).contents().len() == 0 && old(self).is_closed() ==> r is Closed
                && *final(self) == *old(self),
            old(self).contents().len() == 0 && !old(self).is_closed() ==> r is Pending
                && *final(self) == *old(self),
            r is Closed ==> final(self).received() == final(self).sent(),
    {
        if self.chunks.len() > 0 {
            let ghost old_contents = self.contents();
            let chunk: Vec<i16> = self.chunks.remove(0);
            self.received = Ghost(self.received@ + chunk@);
            assert(self.contents() =~= old_contents.drop_first());
            assert(self.received@ + flatten(self.contents()) =~= self.sent@);
            Received::Chunk(chunk)
        } else if self.closed {
            assert(self.contents() =~= Seq::<Seq<i16>>::empty());
            assert(self.received@ =~= self.sent@);
            Received::Closed
        } else {
            Received::Pending
        }
    }
}

} // verus!
