//! A slot map: a container that assigns stable, recyclable indices to
//! dynamically inserted and removed elements.
//!
//! Both the subscriber set of a channel and the channel table of the
//! registry are such arenas.  An index is an opaque handle, valid only
//! between the insertion that returned it and the removal that frees
//! it; a freed slot is recycled by later insertions.

use vstd::prelude::*;

verus! {

/// The number of occupied slots of an arena view.
pub open spec fn occupied_count<T>(s: Seq<Option<T>>) -> nat
    decreases s.len(),
{
    if s.len() == 0 {
        0
    } else {
        occupied_count(s.drop_last()) + if s.last() is Some {
            1nat
        } else {
            0nat
        }
    }
}

/// What `Arena::insert` guarantees: the value sits in the first free
/// slot, every slot below it was already occupied, and a full arena
/// grows by one slot at the end.
pub open spec fn insert_post<T>(before: Seq<Option<T>>, after: Seq<Option<T>>, i: int, value: T) -> bool {
    &&& 0 <= i <= before.len()
    &&& (forall|j: int| 0 <= j < i ==> before[j] is Some)
    &&& if i < before.len() {
        before[i] is None && after == before.update(i, Some(value))
    } else {
        after == before.push(Some(value))
    }
}

/// What `Arena::remove` guarantees: an index inside the arena hands the
/// slot's content out and frees the slot; an index beyond the arena
/// changes nothing and yields `None`.
pub open spec fn remove_post<T>(before: Seq<Option<T>>, after: Seq<Option<T>>, i: int, r: Option<T>) -> bool {
    &&& after.len() == before.len()
    &&& if 0 <= i < before.len() {
        r == before[i] && after == before.update(i, None::<T>)
    } else {
        r is None && after == before
    }
}

/// An arena of `T` values with recyclable `usize` indices.
pub struct Arena<T> {
    slots: Vec<Option<T>>,
}

impl<T> View for Arena<T> {
    type V = Seq<Option<T>>;

    closed spec fn view(&self) -> Seq<Option<T>> {
        self.slots@
    }
}

impl<T> Arena<T> {
    /// An empty arena.
    pub fn new() -> (r: Self)
        ensures
            r@ == Seq::<Option<T>>::empty(),
    {
        Arena { slots: Vec::new() }
    }

    /// The number of slots, occupied or free.
    pub fn len(&self) -> (n: usize)
        ensures
            n == self@.len(),
    {
        self.slots.len()
    }

    /// Inserts `value` into the first free slot and returns its index;
    /// a full arena grows by one slot.
    pub fn insert(&mut self, value: T) -> (i: usize)
        ensures
            insert_post(old(self)@, final(self)@, i as int, value),
    {
        let n = self.slots.len();
        let mut i: usize = 0;
        while i < n && self.slots[i].is_some()
            invariant
                i <= n,
                n == self.slots.len(),
                self@ == old(self)@,
                forall|j: int| 0 <= j < i ==> self.slots@[j] is Some,
            decreases n - i,
        {
            i += 1;
        }
        if i < n {
            self.slots[i] = Some(value);
        } else {
            self.slots.push(Some(value));
        }
        i
    }

    /// Puts `value` into the free slot `i`.
    pub fn put(&mut self, i: usize, value: T)
        requires
            i < old(self)@.len(),
            old(self)@[i as int] is None,
        ensures
            final(self)@ == old(self)@.update(i as int, Some(value)),
    {
        self.slots[i] = Some(value);
    }

    /// Frees slot `i` and returns what it held.
    pub fn remove(&mut self, i: usize) -> (r: Option<T>)
        ensures
            remove_post(old(self)@, final(self)@, i as int, r),
    {
        if i < self.slots.len() {
            let slot = &mut self.slots[i];
            slot.take()
        } else {
            None
        }
    }

    /// Borrows the content of slot `i`, if it is occupied.
    pub fn get(&self, i: usize) -> (r: Option<&T>)
        ensures
            r is Some <==> i < self@.len() && self@[i as int] is Some,
            r matches Some(v) ==> self@[i as int] == Some(*v),
    {
        if i < self.slots.len() {
            self.slots[i].as_ref()
        } else {
            None
        }
    }

    /// The number of occupied slots.
    pub fn count(&self) -> (c: usize)
        ensures
            c == occupied_count(self@),
    {
        let n = self.slots.len();
        let mut c: usize = 0;
        let mut i: usize = 0;
        while i < n
            invariant
                i <= n,
                n == self.slots.len(),
                c <= i,
                c == occupied_count(self@.take(i as int)),
            decreases n - i,
        {
            proof {
                assert(self@.take(i + 1 as int).drop_last() =~= self@.take(i as int));
                assert(self@.take(i + 1 as int).last() == self@[i as int]);
            }
            if self.slots[i].is_some() {
                c += 1;
            }
            i += 1;
        }
        proof {
            assert(self@.take(n as int) =~= self@);
        }
        c
    }
}

/// Updating a slot changes the occupied count by the difference the
/// update makes at that slot.
pub proof fn lemma_occupied_count_update<T>(s: Seq<Option<T>>, i: int, v: Option<T>)
    requires
        0 <= i < s.len(),
    ensures
        occupied_count(s.update(i, v)) + (if s[i] is Some { 1nat } else { 0nat })
            == occupied_count(s) + (if v is Some { 1nat } else { 0nat }),
    decreases s.len(),
{
    let t = s.update(i, v);
    if i == s.len() - 1 {
        assert(t.drop_last() =~= s.drop_last());
    } else {
        assert(t.drop_last() =~= s.drop_last().update(i, v));
        lemma_occupied_count_update(s.drop_last(), i, v);
    }
}

/// Appending a slot adds its occupancy to the count.
pub proof fn lemma_occupied_count_push<T>(s: Seq<Option<T>>, v: Option<T>)
    ensures
        occupied_count(s.push(v)) == occupied_count(s) + (if v is Some { 1nat } else { 0nat }),
{
    assert(s.push(v).drop_last() =~= s);
}

/// An arena whose slots are all free holds nothing.
pub proof fn lemma_occupied_count_all_none<T>(s: Seq<Option<T>>)
    requires
        forall|i: int| 0 <= i < s.len() ==> s[i] is None,
    ensures
        occupied_count(s) == 0,
    decreases s.len(),
{
    if s.len() > 0 {
        lemma_occupied_count_all_none(s.drop_last());
    }
}

} // verus!
