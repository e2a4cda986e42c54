//! Ownership of native objects.
//!
//! Every native object that a wrapper refers to has a reference count. A
//! wrapper comes to hold an object in one of three ways: it *retains* it (one
//! more reference, which the wrapper owns), it *adopts* it (it takes over the
//! reference that a native factory call handed out), or it *borrows* it (for
//! the length of a callback, owning nothing). Dropping a wrapper releases
//! exactly the reference it owns, if any.
//!
//! `RefLedger` keeps the counts as the wrappers see them, so that a leak shows
//! as a count that did not come back.

use vstd::prelude::*;

verus! {

/// How a wrapper came to hold a native object.
#[derive(Clone, Copy, Debug, PartialEq, Eq, Structural)]
pub enum Ownership {
    Retained,
    Adopted,
    Borrowed,
}

/// A wrapper's hold on one native object: the object's id in the ledger, and
/// whether the wrapper owns one of its references.
#[derive(Clone, Copy, Debug, PartialEq, Eq, Structural)]
pub struct NativeRef {
    pub id: usize,
    pub owned: bool,
}

/// The number of objects of `counts` that are still alive.
pub open spec fn live_count(counts: Seq<u64>) -> nat
    decreases counts.len(),
{
    if counts.len() == 0 {
        0
    } else {
        live_count(counts.drop_last()) + if counts.last() > 0 {
            1nat
        } else {
            0nat
        }
    }
}

/// Reference counts of native objects, indexed by object id.
pub struct RefLedger {
    counts: Vec<u64>,
}

impl View for RefLedger {
    type V = Seq<u64>;

    closed spec fn view(&self) -> Seq<u64> {
        self.counts@
    }
}

impl RefLedger {
    /// A ledger that knows no object.
    pub fn new() -> (r: RefLedger)
        ensures
            r@ == Seq::<u64>::empty(),
    {
        RefLedger { counts: Vec::new() }
    }

    /// Whether `id` names an object that is still alive.
    pub open spec fn is_live(&self, id: usize) -> bool {
        id < self@.len() && self@[id as int] > 0
    }

    /// The reference count of object `id` (zero once it is freed).
    pub fn count(&self, id: usize) -> (r: u64)
        requires
            id < self@.len(),
        ensures
            r == self@[id as int],
    {
        self.counts[id]
    }

    /// Records an object that a native factory call has just made, with the
    /// one reference that the call hands to its caller.
    pub fn create(&mut self) -> (id: usize)
        requires
            old(self)@.len() < usize::MAX,
        ensures
            id == old(self)@.len(),
            final(self)@ == old(self)@.push(1),
    {
        let id = self.counts.len();
        self.counts.push(1);
        id
    }

    /// Takes one more reference to a live object, owned by the returned hold.
    pub fn retain(&mut self, id: usize) -> (r: NativeRef)
        requires
            old(self).is_live(id),
            old(self)@[id as int] < u64::MAX,
        ensures
            r == (NativeRef { id, owned: true }),
            final(self)@ == old(self)@.update(id as int, (old(self)@[id as int] + 1) as u64),
    {
        let c = self.counts[id];
        self.counts.set(id, c + 1);
        NativeRef { id, owned: true }
    }

    /// Takes over the reference that the caller already owns.
    pub fn adopt(&self, id: usize) -> (r: NativeRef)
        ensures
            r == (NativeRef { id, owned: true }),
    {
        NativeRef { id, owned: true }
    }

    /// Refers to an object for the length of a callback, owning nothing.
    pub fn borrow(&self, id: usize) -> (r: NativeRef)
        ensures
            r == (NativeRef { id, owned: false }),
    {
        NativeRef { id, owned: false }
    }

    /// Makes a hold on object `id` in the given way.
    pub fn hold(&mut self, id: usize, how: Ownership) -> (r: NativeRef)
        requires
            how == Ownership::Retained ==> old(self).is_live(id) && old(self)@[id as int]
                < u64::MAX,
        ensures
            r.id == id,
            r.owned == (how != Ownership::Borrowed),
            how == Ownership::Retained ==> final(self)@ == old(self)@.update(
                id as int,
                (old(self)@[id as int] + 1) as u64,
            ),
            how != Ownership::Retained ==> final(self)@ == old(self)@,
    {
        match how {
            Ownership::Retained => self.retain(id),
            Ownership::Adopted => self.adopt(id),
            Ownership::Borrowed => self.borrow(id),
        }
    }

    /// Ends a hold: gives back its reference if it owns one.
    pub fn release(&mut self, r: NativeRef)
        requires
            r.owned ==> old(self).is_live(r.id),
        ensures
            r.owned ==> final(self)@ == old(self)@.update(
                r.id as int,
                (old(self)@[r.id as int] - 1) as u64,
            ),
            !r.owned ==> final(self)@ == old(self)@,
    {
        if r.owned {
            let c = self.counts[r.id];
            self.counts.set(r.id, c - 1);
        }
    }

    /// The number of objects still alive.
    pub fn instance_count(&self) -> (r: usize)
        ensures
            r == live_count(self@),
    {
        let mut n: usize = 0;
        let mut i: usize = 0;
        while i < self.counts.len()
            invariant
                i <= self.counts.len(),
                n == live_count(self@.subrange(0, i as int)),
                n <= i,
            decreases self.counts.len() - i,
        {
            proof {
                assert(self@.subrange(0, i as int + 1).drop_last() =~= self@.subrange(0, i as int));
            }
            if self.counts[i] > 0 {
                n = n + 1;
            }
            i = i + 1;
        }
        proof {
            assert(self@.subrange(0, self@.len() as int) =~= self@);
        }
        n
    }
}

/// A retain followed by the release of the hold it gave leaves every count,
/// and so the number of live objects, as it was.
pub proof fn lemma_retain_release_balanced(counts: Seq<u64>, id: int)
    requires
        0 <= id < counts.len(),
        0 < counts[id] < u64::MAX,
    ensures
        ({
            let after = counts.update(id, (counts[id] + 1) as u64);
            let back = after.update(id, (after[id] - 1) as u64);
            back == counts && live_count(back) == live_count(counts)
        }),
{
    let after = counts.update(id, (counts[id] + 1) as u64);
    let back = after.update(id, (after[id] - 1) as u64);
    assert(back =~= counts);
}

/// An object made by a native factory, adopted by a wrapper and released when
/// the wrapper drops, leaves the number of live objects as it was before.
pub proof fn lemma_create_adopt_release_balanced(counts: Seq<u64>)
    ensures
        ({
            let made = counts.push(1);
            let back = made.update(counts.len() as int, (made[counts.len() as int] - 1) as u64);
            live_count(back) == live_count(counts)
        }),
{
    let made = counts.push(1);
    let back = made.update(counts.len() as int, (made[counts.len() as int] - 1) as u64);
    assert(back.drop_last() =~= counts);
}

} // verus!
