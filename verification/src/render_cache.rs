//! The cache of rendered pane state, keyed by pane.

use vstd::prelude::*;

use std::collections::HashMap;

use crate::ids::PaneId;

verus! {

broadcast use vstd::std_specs::hash::group_hash_axioms;

/// The latest rendered state of each pane, as one writer last stored it.
pub struct RenderCache<S> {
    panes: HashMap<PaneId, S>,
}

impl<S> View for RenderCache<S> {
    type V = Map<PaneId, S>;

    closed spec fn view(&self) -> Map<PaneId, S> {
        self.panes@
    }
}

/// What a lookup of `pane_id` in a cache whose contents are `m` gives.
pub open spec fn cached<S>(m: Map<PaneId, S>, pane_id: PaneId) -> Option<S> {
    if m.contains_key(pane_id) {
        Some(m[pane_id])
    } else {
        None
    }
}

impl<S> RenderCache<S> {
    /// An empty cache.
    pub fn new() -> (cache: Self)
        ensures
            cache@ == Map::<PaneId, S>::empty(),
    {
        RenderCache { panes: HashMap::new() }
    }

    /// The state stored for `pane_id`, if any.
    pub fn get(&self, pane_id: PaneId) -> (state: Option<&S>)
        ensures
            match cached(self@, pane_id) {
                Some(s) => state == Some(&s),
                None => state is None,
            },
    {
        self.panes.get(&pane_id)
    }

    /// Stores `state` for `pane_id`, replacing what was stored for it.
    pub fn upsert(&mut self, pane_id: PaneId, state: S)
        ensures
            final(self)@ == old(self)@.insert(pane_id, state),
    {
        self.panes.insert(pane_id, state);
    }

    /// Forgets what was stored for `pane_id`.
    pub fn remove(&mut self, pane_id: PaneId)
        ensures
            final(self)@ == old(self)@.remove(pane_id),
    {
        self.panes.remove(&pane_id);
    }
}

impl<S> Default for RenderCache<S> {
    /// An empty cache.
    fn default() -> (cache: Self)
        ensures
            cache@ == Map::<PaneId, S>::empty(),
    {
        RenderCache::new()
    }
}

/// A lookup gives back what the last upsert for the same pane stored, and
/// an upsert for one pane leaves what is cached for every other pane as it
/// was.
pub proof fn lemma_get_after_upsert<S>(m: Map<PaneId, S>, pane_id: PaneId, state: S, other: PaneId)
    requires
        other != pane_id,
    ensures
        cached(m.insert(pane_id, state), pane_id) == Some(state),
        cached(m.insert(pane_id, state), other) == cached(m, other),
{
}

/// A lookup after a removal finds nothing for the removed pane, and a
/// removal leaves what is cached for every other pane as it was.
pub proof fn lemma_get_after_remove<S>(m: Map<PaneId, S>, pane_id: PaneId, other: PaneId)
    requires
        other != pane_id,
    ensures
        cached(m.remove(pane_id), pane_id) is None,
        cached(m.remove(pane_id), other) == cached(m, other),
{
}

} // verus!
