//! A channel: the arena of subscriber send-endpoints for one logical
//! stream.
//!
//! An endpoint is the sending half of an in-memory unbounded queue; the
//! task that owns the receiving half forwards each queued payload to
//! its network connection.  Registering a subscriber stores its
//! endpoint under a recyclable slot index; broadcasting attempts
//! delivery to every occupied slot independently, collects the
//! endpoints whose send failed during the sweep, and evicts them only
//! once the sweep completes, so one subscriber's failure never aborts
//! delivery to the others.

use vstd::prelude::*;
use crate::arena::{Arena, insert_post, remove_post, occupied_count, lemma_occupied_count_all_none,
    lemma_occupied_count_push, lemma_occupied_count_update};

verus! {

/// A subscriber send-endpoint: the sending half of an unbounded
/// in-memory byte-payload queue.
pub type Endpoint = futures::channel::mpsc::UnboundedSender<Vec<u8>>;

#[verifier::external_type_specification]
#[verifier::external_body]
#[verifier::reject_recursive_types(T)]
pub struct ExUnboundedSender<T>(futures::channel::mpsc::UnboundedSender<T>);

/// Relies on futures' `UnboundedSender::unbounded_send`: queues the
/// message for the receiving half and reports success, or fails when
/// the queue has been closed or its receiving half dropped.  Whether a
/// given call succeeds depends on that outside state, so nothing more
/// is promised of the outcome.
#[verifier::external_body]
fn endpoint_send(endpoint: &Endpoint, message: Vec<u8>) -> (ok: bool) {
    endpoint.unbounded_send(message).is_ok()
}

/// Relies on futures' `UnboundedSender::close_channel`: closes the
/// queue from the sending side, preventing any new messages.
#[verifier::external_body]
fn endpoint_close(endpoint: &Endpoint) {
    endpoint.close_channel()
}

/// Whether `evicted` lists strictly increasing slot indices.
pub open spec fn strictly_increasing_indices(evicted: Seq<usize>) -> bool {
    forall|p: int, q: int| 0 <= p < q < evicted.len() ==> evicted[p] < evicted[q]
}

/// What a broadcast sweep guarantees: the arena keeps its shape; the
/// evicted indices are a strictly increasing list of slots that were
/// occupied before and are free after; every other slot is untouched.
/// Which occupied slots end up evicted is decided by the outcome of
/// each endpoint's send, which the core does not control.
pub open spec fn broadcast_post(before: Seq<Option<Endpoint>>, after: Seq<Option<Endpoint>>, evicted: Seq<usize>) -> bool {
    &&& after.len() == before.len()
    &&& strictly_increasing_indices(evicted)
    &&& (forall|p: int| 0 <= p < evicted.len()
            ==> (#[trigger] evicted[p]) < before.len() && before[evicted[p] as int] is Some)
    &&& (forall|i: usize| i < before.len() ==> #[trigger] after[i as int] == (if evicted.contains(i) {
            None::<Endpoint>
        } else {
            before[i as int]
        }))
}

/// The dynamic subscriber set of one logical stream.
pub struct Channel {
    subscribers: Arena<Endpoint>,
}

impl View for Channel {
    type V = Seq<Option<Endpoint>>;

    closed spec fn view(&self) -> Seq<Option<Endpoint>> {
        self.subscribers@
    }
}

impl Channel {
    /// A channel with no subscribers.
    pub fn new() -> (r: Self)
        ensures
            r@ == Seq::<Option<Endpoint>>::empty(),
    {
        Channel { subscribers: Arena::new() }
    }

    /// Registers a subscriber endpoint in the first free slot and
    /// returns the slot index.
    pub fn register(&mut self, endpoint: Endpoint) -> (i: usize)
        ensures
            insert_post(old(self)@, final(self)@, i as int, endpoint),
    {
        self.subscribers.insert(endpoint)
    }

    /// Removes and returns the endpoint registered under `index`;
    /// yields `None` when the slot is already free, so double
    /// deregistration is safe.
    pub fn deregister(&mut self, index: usize) -> (r: Option<Endpoint>)
        ensures
            remove_post(old(self)@, final(self)@, index as int, r),
    {
        self.subscribers.remove(index)
    }

    /// The number of currently registered subscribers.
    pub fn count(&self) -> (c: usize)
        ensures
            c == occupied_count(self@),
    {
        self.subscribers.count()
    }

    /// Attempts delivery of `message` to every registered subscriber
    /// independently; endpoints whose send fails are collected during
    /// the sweep, evicted once the sweep completes, and their indices
    /// returned.  Delivery is best-effort and at-most-once per
    /// subscriber per call.
    pub fn broadcast(&mut self, message: &Vec<u8>) -> (evicted: Vec<usize>)
        ensures
            broadcast_post(old(self)@, final(self)@, evicted@),
    {
        let n = self.subscribers.len();
        let mut failed: Vec<usize> = Vec::new();
        let mut i: usize = 0;
        while i < n
            invariant
                i <= n,
                n == self@.len(),
                self@ == old(self)@,
                strictly_increasing_indices(failed@),
                forall|p: int| 0 <= p < failed@.len()
                    ==> (#[trigger] failed@[p]) < i && self@[failed@[p] as int] is Some,
            decreases n - i,
        {
            match self.subscribers.get(i) {
                Some(endpoint) => {
                    let ok = endpoint_send(endpoint, message.clone());
                    if !ok {
                        failed.push(i);
                    }
                },
                None => {},
            }
            i += 1;
        }
        let m = failed.len();
        let mut k: usize = 0;
        while k < m
            invariant
                k <= m,
                m == failed@.len(),
                self@.len() == old(self)@.len(),
                strictly_increasing_indices(failed@),
                forall|p: int| 0 <= p < m
                    ==> (#[trigger] failed@[p]) < old(self)@.len() && old(self)@[failed@[p] as int] is Some,
                forall|i: usize| i < self@.len() ==> #[trigger] self@[i as int] == (
                    if failed@.take(k as int).contains(i) {
                        None::<Endpoint>
                    } else {
                        old(self)@[i as int]
                    }),
            decreases m - k,
        {
            let idx = failed[k];
            let ghost prev = self@;
            self.subscribers.remove(idx);
            proof {
                let shorter = failed@.take(k as int);
                let longer = failed@.take(k + 1 as int);
                assert(longer =~= shorter.push(failed@[k as int]));
                assert forall|i: usize| i < self@.len() implies #[trigger] self@[i as int] == (
                    if longer.contains(i) {
                        None::<Endpoint>
                    } else {
                        old(self)@[i as int]
                    }) by {
                    if i == idx {
                        assert(longer[k as int] == idx);
                        assert(longer.contains(idx));
                    } else {
                        assert(self@[i as int] == prev[i as int]);
                        if longer.contains(i) {
                            let p = choose|p: int| 0 <= p < longer.len() && #[trigger] longer[p] == i;
                            assert(longer[k as int] == failed@[k as int]);
                            assert(p < k);
                            assert(shorter[p] == i);
                            assert(shorter.contains(i));
                        } else {
                            assert(!shorter.contains(i)) by {
                                if shorter.contains(i) {
                                    let q = choose|q: int| 0 <= q < shorter.len() && #[trigger] shorter[q] == i;
                                    assert(longer[q] == i);
                                }
                            }
                        }
                    }
                }
            }
            k += 1;
        }
        proof {
            assert(failed@.take(m as int) =~= failed@);
        }
        failed
    }

    /// Attempts delivery of `message` to the single subscriber under
    /// `index`; reports success.  A free slot or a failed send yields
    /// `false` and changes nothing.
    pub fn send(&self, index: usize, message: Vec<u8>) -> (ok: bool)
        ensures
            ok ==> index < self@.len() && self@[index as int] is Some,
    {
        match self.subscribers.get(index) {
            Some(endpoint) => endpoint_send(endpoint, message),
            None => false,
        }
    }

    /// Evicts every subscriber and closes its endpoint; used on
    /// teardown.
    pub fn deregister_all(&mut self)
        ensures
            final(self)@.len() == old(self)@.len(),
            forall|i: int| 0 <= i < final(self)@.len() ==> final(self)@[i] is None,
            occupied_count(final(self)@) == 0,
    {
        let n = self.subscribers.len();
        let mut i: usize = 0;
        while i < n
            invariant
                i <= n,
                n == self@.len(),
                forall|j: int| 0 <= j < i ==> self@[j] is None,
            decreases n - i,
        {
            match self.subscribers.remove(i) {
                Some(endpoint) => endpoint_close(&endpoint),
                None => {},
            }
            i += 1;
        }
        proof {
            lemma_occupied_count_all_none(self@);
        }
    }
}

/// Registering an endpoint and immediately deregistering the returned
/// index yields the original endpoint back and leaves the channel's
/// occupied subscriber count as it was before the registration.
pub proof fn lemma_register_then_deregister(
    before: Seq<Option<Endpoint>>,
    mid: Seq<Option<Endpoint>>,
    after: Seq<Option<Endpoint>>,
    endpoint: Endpoint,
    i: int,
    out: Option<Endpoint>,
)
    requires
        insert_post(before, mid, i, endpoint),
        remove_post(mid, after, i, out),
    ensures
        out == Some(endpoint),
        occupied_count(after) == occupied_count(before),
{
    if i < before.len() {
        lemma_occupied_count_update(before, i, Some(endpoint));
    } else {
        lemma_occupied_count_push(before, Some(endpoint));
    }
    lemma_occupied_count_update(mid, i, None::<Endpoint>);
}

} // verus!
