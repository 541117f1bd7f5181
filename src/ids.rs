use vstd::prelude::*;

verus! {

/// A source of subscriber identities: it hands out 1, 2, 3, ... and never the
/// same value twice.
pub struct IdCounter {
    next: usize,
}

impl IdCounter {
    /// The identity that the next call of `get_id` hands out.
    pub closed spec fn next_id(&self) -> nat {
        self.next as nat
    }

    /// A counter whose first identity is 1.
    pub fn new() -> (r: IdCounter)
        ensures
            r.next_id() == 1,
    {
        IdCounter { next: 1 }
    }

    /// Whether another identity fits in a `usize`.
    pub fn has_next(&self) -> (r: bool)
        ensures
            r == (self.next_id() < usize::MAX),
    {
        self.next < usize::MAX
    }
}

/// Hands out the counter's next identity and advances it by one.
pub fn get_id(counter: &mut IdCounter) -> (r: usize)
    requires
        old(counter).next_id() < usize::MAX,
    ensures
        r == old(counter).next_id(),
        final(counter).next_id() == old(counter).next_id() + 1,
        r < final(counter).next_id(),
{
    let id = counter.next;
    counter.next = counter.next + 1;
    id
}

/// Identities are never reused: every identity handed out so far is below
/// the counter's next one, which is what `get_id` returns next, and that
/// stays so after the call.
pub proof fn lemma_get_id_fresh(earlier: Seq<usize>, before: IdCounter, id: usize, after: IdCounter)
    requires
        forall|i: int| 0 <= i < earlier.len() ==> (#[trigger] earlier[i]) < before.next_id(),
        id == before.next_id(),
        after.next_id() == before.next_id() + 1,
    ensures
        forall|i: int| 0 <= i < earlier.len() ==> #[trigger] earlier[i] != id,
        forall|i: int| 0 <= i < earlier.push(id).len() ==> (#[trigger] earlier.push(id)[i]) < after.next_id(),
{
    assert forall|i: int| 0 <= i < earlier.push(id).len() implies (#[trigger] earlier.push(id)[i]) < after.next_id() by {
        if i < earlier.len() {
            assert(earlier.push(id)[i] == earlier[i]);
        }
    }
}

} // verus!
