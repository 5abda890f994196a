//! The pipe relay: an in-process registry of open byte sinks, each
//! reachable under an opaque handle, bridging a remote job's output bytes
//! into the response stream of the request that allocated the handle.
//!
//! A handle is a generated token in a table, never a raw file descriptor,
//! so concurrent allocations cannot collide and the value is safe to send
//! across the network. Each sink is a FIFO of byte chunks plus a closed
//! flag: routing appends a chunk, the paired reader drains chunks in
//! order, and end-of-stream is observed exactly once the sink is closed
//! and drained.

use vstd::prelude::*;

use crate::kvlist::{
    assoc_map, distinct_keys, lemma_assoc_contains, lemma_assoc_get, lemma_assoc_push,
    lemma_assoc_remove, lemma_assoc_update,
};

verus! {

/// How many chunks one sink may hold before the inbound endpoint must
/// stop reading the posted body: the relay must not buffer unboundedly,
/// so the endpoint checks `queue_depth` and defers further reads while a
/// sink is at capacity — the channel's backpressure, surfaced to HTTP.
pub const RELAY_QUEUE_CAPACITY: usize = 16;

/// Why a relay operation was refused.
#[derive(Debug, Clone, Copy, PartialEq, Eq, Structural)]
pub enum RelayError {
    /// No sink is registered under the handle.
    UnknownHandle,
    /// The sink exists but end-of-stream was already signalled.
    SinkClosed,
}

/// The state of one sink as the contracts see it.
#[verifier::ext_equal]
pub ghost struct SinkModel {
    /// Chunks routed in but not yet read out, oldest first.
    pub queue: Seq<Seq<u8>>,
    /// Whether end-of-stream has been signalled.
    pub closed: bool,
}

/// One step of draining a sink.
#[derive(Debug, Clone, PartialEq, Eq)]
pub enum ReadStep {
    /// The oldest queued chunk.
    Data(Vec<u8>),
    /// The sink was closed and is now fully drained; it has been
    /// deregistered and the stream ends here.
    End,
    /// Nothing queued yet and the sink is still open; the reader should
    /// wait and try again.
    Pending,
}

struct SinkEntry {
    handle: u64,
    queue: Vec<Vec<u8>>,
    closed: bool,
}

impl SinkEntry {
    spec fn model(&self) -> SinkModel {
        SinkModel { queue: self.queue.deep_view(), closed: self.closed }
    }
}

/// The handle table. All operations leave every other handle's sink
/// untouched: each sink is exclusively owned by its one allocator/router
/// pair for its whole lifetime.
pub struct PipeRelay {
    next: u64,
    entries: Vec<SinkEntry>,
}

impl PipeRelay {
    spec fn pairs(&self) -> Seq<(u64, SinkModel)> {
        self.entries@.map(|i: int, e: SinkEntry| (e.handle, e.model()))
    }

    /// The registered sinks, by handle.
    pub closed spec fn view(&self) -> Map<u64, SinkModel> {
        assoc_map(self.pairs())
    }

    /// Internal consistency: handles are distinct and below the
    /// allocation counter, so freshly allocated handles never collide.
    pub closed spec fn wf(&self) -> bool {
        &&& distinct_keys(self.pairs())
        &&& forall|i: int|
            0 <= i < self.pairs().len() ==> (#[trigger] self.pairs()[i]).0 < self.next
    }

    /// The token the next allocation will hand out.
    pub closed spec fn spec_next_handle(&self) -> u64 {
        self.next
    }

    /// Room for another handle; only astronomically many allocations can
    /// exhaust it.
    pub open spec fn spec_can_allocate(&self) -> bool {
        self.spec_next_handle() < u64::MAX
    }

    /// Whether another handle can still be allocated.
    pub fn can_allocate(&self) -> (r: bool)
        ensures
            r == self.spec_can_allocate(),
    {
        self.next < u64::MAX
    }

    /// An empty relay with no registered sinks.
    pub fn new() -> (r: PipeRelay)
        ensures
            r@ == Map::<u64, SinkModel>::empty(),
            r.spec_next_handle() == 0,
            r.wf(),
    {
        let r = PipeRelay { next: 0, entries: Vec::new() };
        proof {
            assert(r.pairs() =~= Seq::<(u64, SinkModel)>::empty());
        }
        r
    }

    /// Creates a connected sink under a fresh handle: the handle goes
    /// into the job's output address, and reads under the same handle
    /// drain what the job posts.
    pub fn allocate(&mut self) -> (h: u64)
        requires
            old(self).wf(),
            old(self).spec_can_allocate(),
        ensures
            final(self).wf(),
            h == old(self).spec_next_handle(),
            !old(self)@.contains_key(h),
            final(self)@ == old(self)@.insert(
                h,
                SinkModel { queue: Seq::empty(), closed: false },
            ),
            final(self).spec_next_handle() == h + 1,
    {
        let h = self.next;
        proof {
            lemma_assoc_contains(self.pairs(), h);
        }
        let ghost old_pairs = self.pairs();
        self.next = self.next + 1;
        self.entries.push(SinkEntry { handle: h, queue: Vec::new(), closed: false });
        proof {
            assert(self.pairs() =~~= old_pairs.push(
                (h, SinkModel { queue: Seq::empty(), closed: false }),
            ));
            lemma_assoc_push(old_pairs, h, SinkModel { queue: Seq::empty(), closed: false });
        }
        h
    }

    fn find(&self, h: u64) -> (r: Option<usize>)
        requires
            self.wf(),
        ensures
            match r {
                Option::Some(i) => i < self.entries@.len() && self.pairs()[i as int].0 == h
                    && self@.contains_key(h) && self@[h] == self.pairs()[i as int].1,
                Option::None => !self@.contains_key(h),
            },
    {
        let n = self.entries.len();
        let mut i: usize = 0;
        while i < n
            invariant
                self.wf(),
                n == self.entries@.len(),
                0 <= i <= n,
                forall|j: int| 0 <= j < i ==> (#[trigger] self.pairs()[j]).0 != h,
            decreases n - i,
        {
            if self.entries[i].handle == h {
                proof {
                    lemma_assoc_get(self.pairs(), i as int);
                }
                return Some(i);
            }
            i += 1;
        }
        proof {
            lemma_assoc_contains(self.pairs(), h);
        }
        None
    }

    /// How many chunks are queued in the sink under `h`; `None` when no
    /// sink is registered there. The inbound endpoint consults this and
    /// defers its body reads while the depth is at
    /// `RELAY_QUEUE_CAPACITY`, so a slow reader back-pressures the
    /// poster instead of growing the queue without bound.
    pub fn queue_depth(&self, h: u64) -> (r: Option<usize>)
        requires
            self.wf(),
        ensures
            (r is Some) == self@.contains_key(h),
            r matches Some(n) ==> n == self@[h].queue.len(),
    {
        match self.find(h) {
            Option::Some(i) => Some(self.entries[i].queue.len()),
            Option::None => None,
        }
    }

    /// Routes one chunk of an inbound request body into the sink under
    /// `h`. Succeeds exactly on a registered, still-open sink, appending
    /// the chunk to its queue; an unknown or closed handle is refused and
    /// nothing changes. The caller holds the queue bounded by deferring
    /// while `queue_depth` reports `RELAY_QUEUE_CAPACITY`.
    pub fn route(&mut self, h: u64, chunk: Vec<u8>) -> (r: Result<(), RelayError>)
        requires
            old(self).wf(),
        ensures
            final(self).wf(),
            r is Ok <==> old(self)@.contains_key(h) && !old(self)@[h].closed,
            r is Ok ==> final(self)@ == old(self)@.insert(
                h,
                SinkModel { queue: old(self)@[h].queue.push(chunk@), closed: false },
            ),
            !old(self)@.contains_key(h) ==> r == Err::<(), RelayError>(RelayError::UnknownHandle),
            old(self)@.contains_key(h) && old(self)@[h].closed ==> r == Err::<(), RelayError>(
                RelayError::SinkClosed,
            ),
            r is Err ==> final(self)@ == old(self)@,
    {
        let found = self.find(h);
        match found {
            Option::None => Err(RelayError::UnknownHandle),
            Option::Some(i) => {
                if self.entries[i].closed {
                    Err(RelayError::SinkClosed)
                } else {
                    let ghost old_pairs = self.pairs();
                    let ghost old_model = self.pairs()[i as int].1;
                    let entry = &mut self.entries[i];
                    entry.queue.push(chunk);
                    proof {
                        assert(self.pairs() =~~= old_pairs.update(
                            i as int,
                            (h, SinkModel { queue: old_model.queue.push(chunk@), closed: false }),
                        ));
                        lemma_assoc_update(
                            old_pairs,
                            i as int,
                            SinkModel { queue: old_model.queue.push(chunk@), closed: false },
                        );
                    }
                    Ok(())
                }
            },
        }
    }

    /// Signals end-of-stream on the sink under `h`, as the inbound relay
    /// endpoint does when the posted body ends. The queued chunks stay
    /// readable; once drained, the reader observes the end and the handle
    /// is deregistered. Closing an unknown or already-closed handle is
    /// refused and nothing changes.
    pub fn close(&mut self, h: u64) -> (r: Result<(), RelayError>)
        requires
            old(self).wf(),
        ensures
            final(self).wf(),
            r is Ok <==> old(self)@.contains_key(h) && !old(self)@[h].closed,
            r is Ok ==> final(self)@ == old(self)@.insert(
                h,
                SinkModel { queue: old(self)@[h].queue, closed: true },
            ),
            !old(self)@.contains_key(h) ==> r == Err::<(), RelayError>(RelayError::UnknownHandle),
            old(self)@.contains_key(h) && old(self)@[h].closed ==> r == Err::<(), RelayError>(
                RelayError::SinkClosed,
            ),
            r is Err ==> final(self)@ == old(self)@,
    {
        let found = self.find(h);
        match found {
            Option::None => Err(RelayError::UnknownHandle),
            Option::Some(i) => {
                if self.entries[i].closed {
                    Err(RelayError::SinkClosed)
                } else {
                    let ghost old_pairs = self.pairs();
                    let ghost old_model = self.pairs()[i as int].1;
                    let entry = &mut self.entries[i];
                    entry.closed = true;
                    proof {
                        assert(self.pairs() =~~= old_pairs.update(
                            i as int,
                            (h, SinkModel { queue: old_model.queue, closed: true }),
                        ));
                        lemma_assoc_update(
                            old_pairs,
                            i as int,
                            SinkModel { queue: old_model.queue, closed: true },
                        );
                    }
                    Ok(())
                }
            },
        }
    }

    /// One step of draining the sink under `h`: the oldest queued chunk
    /// if any; end-of-stream (deregistering the handle) once the sink is
    /// closed and empty, or was already gone; otherwise the reader must
    /// wait.
    pub fn read(&mut self, h: u64) -> (r: ReadStep)
        requires
            old(self).wf(),
        ensures
            final(self).wf(),
            old(self)@.contains_key(h) && old(self)@[h].queue.len() > 0 ==> (r matches
            ReadStep::Data(c) && c@ == old(self)@[h].queue.first() && final(self)@ == old(
                self,
            )@.insert(
                h,
                SinkModel {
                    queue: old(self)@[h].queue.drop_first(),
                    closed: old(self)@[h].closed,
                },
            )),
            old(self)@.contains_key(h) && old(self)@[h].queue.len() == 0 && old(self)@[h].closed
                ==> r == ReadStep::End && final(self)@ == old(self)@.remove(h),
            old(self)@.contains_key(h) && old(self)@[h].queue.len() == 0 && !old(self)@[h].closed
                ==> r == ReadStep::Pending && final(self)@ == old(self)@,
            !old(self)@.contains_key(h) ==> r == ReadStep::End && final(self)@ == old(self)@,
    {
        let found = self.find(h);
        match found {
            Option::None => ReadStep::End,
            Option::Some(i) => {
                if self.entries[i].queue.len() > 0 {
                    let ghost old_pairs = self.pairs();
                    let ghost old_model = self.pairs()[i as int].1;
                    let entry = &mut self.entries[i];
                    let chunk = entry.queue.remove(0);
                    proof {
                        assert(chunk@ == old_model.queue.first());
                        assert(self.entries[i as int].queue.deep_view()
                            =~~= old_model.queue.drop_first());
                        assert(self.pairs() =~~= old_pairs.update(
                            i as int,
                            (
                                h,
                                SinkModel {
                                    queue: old_model.queue.drop_first(),
                                    closed: old_model.closed,
                                },
                            ),
                        ));
                        lemma_assoc_update(
                            old_pairs,
                            i as int,
                            SinkModel {
                                queue: old_model.queue.drop_first(),
                                closed: old_model.closed,
                            },
                        );
                    }
                    ReadStep::Data(chunk)
                } else if self.entries[i].closed {
                    let ghost old_pairs = self.pairs();
                    self.entries.remove(i);
                    proof {
                        assert(self.pairs() =~~= old_pairs.remove(i as int));
                        lemma_assoc_remove(old_pairs, i as int);
                    }
                    ReadStep::End
                } else {
                    ReadStep::Pending
                }
            },
        }
    }
}

/// The queue left after posting `cs` one chunk at a time onto `q`.
pub open spec fn posts_applied(q: Seq<Seq<u8>>, cs: Seq<Seq<u8>>) -> Seq<Seq<u8>>
    decreases cs.len(),
{
    if cs.len() == 0 {
        q
    } else {
        posts_applied(q.push(cs.first()), cs.drop_first())
    }
}

proof fn lemma_posts_applied(q: Seq<Seq<u8>>, cs: Seq<Seq<u8>>)
    ensures
        posts_applied(q, cs) == q + cs,
    decreases cs.len(),
{
    if cs.len() == 0 {
        assert(posts_applied(q, cs) =~= q + cs);
    } else {
        lemma_posts_applied(q.push(cs.first()), cs.drop_first());
        assert(q.push(cs.first()) + cs.drop_first() =~= q + cs);
    }
}

/// Relay correctness law: posting a sequence of chunks onto a freshly
/// allocated sink queues exactly those chunks in order, so the paired
/// reads yield them one by one and then, once the sink is closed,
/// end-of-stream — the routing contract appends one chunk per post and
/// the reading contract pops them oldest-first.
pub proof fn lemma_relay_fifo(cs: Seq<Seq<u8>>)
    ensures
        posts_applied(Seq::empty(), cs) == cs,
{
    lemma_posts_applied(Seq::empty(), cs);
    assert(Seq::empty() + cs =~= cs);
}

/// Relay drain law, the reading half of relay correctness for any number
/// of chunks: a sink holding `cs` has queue `cs.skip(k)` after `k`
/// reads — the `k`-th read's contract hands out exactly `cs[k]` and
/// leaves `cs.skip(k + 1)` — and after all `cs.len()` reads the queue is
/// empty, so a closed sink then reports end-of-stream, exactly once the
/// close happened and not before.
pub proof fn lemma_relay_drains_in_order(cs: Seq<Seq<u8>>, k: int)
    requires
        0 <= k < cs.len(),
    ensures
        cs.skip(k).len() > 0,
        cs.skip(k).first() == cs[k],
        cs.skip(k).drop_first() == cs.skip(k + 1),
        cs.skip(cs.len() as int).len() == 0,
{
    assert(cs.skip(k).drop_first() =~= cs.skip(k + 1));
}

/// The HTTP status of the inbound relay endpoint: accepted when the
/// chunk was routed, bad-request when the handle was unknown or closed.
pub fn relay_response_status(r: &Result<(), RelayError>) -> (code: u16)
    ensures
        r is Ok ==> code == 202,
        r is Err ==> code == 400,
{
    match r {
        Ok(()) => 202,
        Err(_) => 400,
    }
}

} // verus!
