//! Identifiers and the counters that hand them out.

use vstd::prelude::*;

verus! {

/// Identifies a domain.
pub type DomainId = usize;

/// Identifies a tab.
pub type TabId = usize;

/// Identifies a pane.
pub type PaneId = usize;

/// Identifies a window.
pub type WindowId = usize;

/// The value a counter holds after one more identifier was taken from it:
/// the counter wraps around to zero past `usize::MAX`.
pub open spec fn wrapping_succ(n: usize) -> usize {
    if n == usize::MAX {
        0
    } else {
        (n + 1) as usize
    }
}

/// The identifier that the `k`-th allocation (counting from zero) hands out
/// from a counter that starts at `start`.
pub open spec fn nth_id(start: usize, k: nat) -> usize
    decreases k,
{
    if k == 0 {
        start
    } else {
        wrapping_succ(nth_id(start, (k - 1) as nat))
    }
}

/// A counter that hands out identifiers in increasing order, wrapping
/// around past `usize::MAX` as an atomic `fetch_add` does.
pub struct IdAllocator {
    next: usize,
}

impl View for IdAllocator {
    type V = usize;

    /// The identifier that the next allocation hands out.
    closed spec fn view(&self) -> usize {
        self.next
    }
}

impl IdAllocator {
    /// A counter whose first identifier is zero.
    pub fn new() -> (ids: Self)
        ensures
            ids@ == 0,
    {
        IdAllocator { next: 0 }
    }

    /// A counter whose first identifier is `next`.
    pub fn starting_at(next: usize) -> (ids: Self)
        ensures
            ids@ == next,
    {
        IdAllocator { next }
    }

    /// The identifier that the next allocation hands out.
    pub fn peek(&self) -> (next: usize)
        ensures
            next == self@,
    {
        self.next
    }

    /// Hands out the current identifier and advances the counter.
    pub fn allocate(&mut self) -> (id: usize)
        ensures
            id == old(self)@,
            final(self)@ == wrapping_succ(old(self)@),
    {
        let id: usize = self.next;
        self.next = if id == usize::MAX {
            0
        } else {
            id + 1
        };
        id
    }
}

/// Hands out a fresh domain identifier from `ids`.
pub fn alloc_domain_id(ids: &mut IdAllocator) -> (id: DomainId)
    ensures
        id == old(ids)@,
        final(ids)@ == wrapping_succ(old(ids)@),
{
    ids.allocate()
}

/// Hands out a fresh tab identifier from `ids`.
pub fn alloc_tab_id(ids: &mut IdAllocator) -> (id: TabId)
    ensures
        id == old(ids)@,
        final(ids)@ == wrapping_succ(old(ids)@),
{
    ids.allocate()
}

/// Before the counter wraps, the `k`-th identifier is `start + k`.
pub proof fn lemma_nth_id_no_wrap(start: usize, k: nat)
    requires
        start + k <= usize::MAX,
    ensures
        nth_id(start, k) == start + k,
    decreases k,
{
    if k > 0 {
        lemma_nth_id_no_wrap(start, (k - 1) as nat);
    }
}

/// Taking `a` identifiers and then `b` more is taking `a + b` identifiers.
pub proof fn lemma_nth_id_compose(start: usize, a: nat, b: nat)
    ensures
        nth_id(start, a + b) == nth_id(nth_id(start, a), b),
    decreases b,
{
    if b > 0 {
        lemma_nth_id_compose(start, a, (b - 1) as nat);
        assert((a + b - 1) as nat == a + (b - 1) as nat);
    }
}

/// Identifiers handed out by one counter are pairwise distinct as long as
/// the counter has not gone past `usize::MAX`.
pub proof fn lemma_ids_distinct(start: usize, i: nat, j: nat)
    requires
        i < j,
        start + j <= usize::MAX,
    ensures
        nth_id(start, i) != nth_id(start, j),
{
    lemma_nth_id_no_wrap(start, i);
    lemma_nth_id_no_wrap(start, j);
}

/// After `usize::MAX + 1` allocations a counter hands out its first
/// identifier again.
pub proof fn lemma_ids_cycle(start: usize)
    ensures
        nth_id(start, (usize::MAX + 1) as nat) == start,
{
    let k0: nat = (usize::MAX - start) as nat;
    lemma_nth_id_no_wrap(start, k0);
    assert(nth_id(start, k0 + 1) == 0) by {
        assert((k0 + 1 - 1) as nat == k0);
    }
    lemma_nth_id_compose(start, k0 + 1, start as nat);
    lemma_nth_id_no_wrap(0, start as nat);
    assert(k0 + 1 + start == usize::MAX + 1);
}

} // verus!
