//! Per-process request identifier counter.
//!
//! Every inbound request draws one identifier from a process-wide counter.
//! Identifiers are strictly increasing and never reused, so two requests —
//! however they interleave — can never observe the same one.

use vstd::prelude::*;

verus! {

/// Source of per-process request identifiers, starting at 1.
///
/// The ghost `issued` sequence records every identifier handed out so far,
/// in the order they were handed out.
pub struct RqId {
    counter: u64,
    issued: Ghost<Seq<u64>>,
}

impl RqId {
    /// The value the next call to `next` will return.
    pub closed spec fn counter(self) -> u64 {
        self.counter
    }

    /// Every identifier handed out so far, oldest first.
    pub closed spec fn issued(self) -> Seq<u64> {
        self.issued@
    }

    /// Identifiers already handed out are strictly increasing and all lie
    /// below the counter, so no identifier can ever be handed out twice.
    pub open spec fn wf(self) -> bool {
        &&& 1 <= self.counter()
        &&& forall|i: int| 0 <= i < self.issued().len() ==> self.issued()[i] < self.counter()
        &&& forall|i: int, j: int|
            0 <= i < j < self.issued().len() ==> self.issued()[i] < self.issued()[j]
    }

    /// A fresh counter: nothing issued yet, first identifier will be 1.
    pub fn new() -> (r: Self)
        ensures
            r.wf(),
            r.counter() == 1,
            r.issued() == Seq::<u64>::empty(),
    {
        RqId { counter: 1, issued: Ghost(Seq::empty()) }
    }

    /// Hands out the next identifier and advances the counter.
    pub fn next(&mut self) -> (id: u64)
        requires
            old(self).wf(),
            old(self).counter() < u64::MAX,
        ensures
            final(self).wf(),
            id == old(self).counter(),
            final(self).counter() == old(self).counter() + 1,
            final(self).issued() == old(self).issued().push(id),
            forall|i: int| 0 <= i < old(self).issued().len() ==> old(self).issued()[i] != id,
    {
        let id = self.counter;
        self.counter = self.counter + 1;
        self.issued = Ghost(self.issued@.push(id));
        proof {
            let s0 = old(self).issued();
            let s1 = self.issued();
            assert forall|i: int| 0 <= i < s1.len() implies s1[i] < self.counter() by {
                if i < s0.len() {
                    assert(s1[i] == s0[i]);
                } else {
                    assert(s1[i] == id);
                }
            }
            assert forall|i: int, j: int| 0 <= i < j < s1.len() implies s1[i] < s1[j] by {
                if j < s0.len() {
                    assert(s1[i] == s0[i] && s1[j] == s0[j]);
                } else {
                    assert(s1[j] == id);
                    assert(s1[i] == s0[i]);
                }
            }
        }
        id
    }

    /// The value the next call to `next` will return, observably: callers
    /// use it to notice an exhausted counter before drawing from it.
    pub fn counter_value(&self) -> (c: u64)
        ensures
            c == self.counter(),
    {
        self.counter
    }
}

/// Identifiers are handed out in strictly increasing order: a request that
/// drew its identifier earlier always holds the smaller one.
pub proof fn lemma_issued_strictly_increasing(r: RqId, i: int, j: int)
    requires
        r.wf(),
        0 <= i < j < r.issued().len(),
    ensures
        r.issued()[i] < r.issued()[j],
{
}

/// No identifier is ever handed out twice: any two distinct draws — in
/// particular those of concurrently running requests — differ.
pub proof fn lemma_issued_unique(r: RqId, i: int, j: int)
    requires
        r.wf(),
        0 <= i < r.issued().len(),
        0 <= j < r.issued().len(),
        i != j,
    ensures
        r.issued()[i] != r.issued()[j],
{
    if i < j {
        lemma_issued_strictly_increasing(r, i, j);
    } else {
        lemma_issued_strictly_increasing(r, j, i);
    }
}

/// N draws give N distinct identifiers: the set of identifiers handed out
/// is as large as the number of draws.
pub proof fn lemma_issued_cardinality(r: RqId)
    requires
        r.wf(),
    ensures
        r.issued().to_set().len() == r.issued().len(),
{
    assert forall|i: int, j: int|
        0 <= i < r.issued().len() && 0 <= j < r.issued().len() && i != j
        implies r.issued()[i] != r.issued()[j] by {
        lemma_issued_unique(r, i, j);
    }
    assert(r.issued().no_duplicates());
    r.issued().unique_seq_to_set();
}

} // verus!
