//! A tab: its identifiers, its title, the panes it holds and which of them
//! is active, plus the split geometry types that callers exchange with it.

use vstd::prelude::*;

use crate::error::MuxError;
use crate::ids::{alloc_tab_id, wrapping_succ, DomainId, IdAllocator, PaneId, TabId};
use crate::search::{
    first_match, is_first_match, lemma_first_match, lemma_first_match_none,
    lemma_first_match_unique,
};
use crate::terminal::TerminalSize;

verus! {

/// The direction in which a pane is split.
#[derive(Debug, Clone, Copy, PartialEq, Eq, Structural)]
pub enum SplitDirection {
    Horizontal,
    Vertical,
}

/// A request to split a pane.
#[derive(Debug, Clone, Copy, PartialEq, Eq, Structural)]
pub struct SplitRequest {
    pub direction: SplitDirection,
    pub target_is_second: bool,
    pub size: SplitSize,
    pub top_level: bool,
}

/// How large the new part of a split is.
#[derive(Debug, Clone, Copy, PartialEq, Eq, Structural)]
pub enum SplitSize {
    Cells(usize),
    Percent(u8),
}

impl Default for SplitSize {
    /// Half of the split pane.
    fn default() -> (size: Self)
        ensures
            size == SplitSize::Percent(50),
    {
        SplitSize::Percent(50)
    }
}

/// The outcome of computing a split: its direction and the sizes of the
/// two parts.
#[derive(Debug, Clone)]
pub struct SplitDirectionAndSize {
    pub direction: SplitDirection,
    pub first: PaneSize,
    pub second: PaneSize,
}

/// The size of a pane, in cells and pixels.
#[derive(Debug, Clone)]
pub struct PaneSize {
    pub rows: usize,
    pub cols: usize,
    pub pixel_width: usize,
    pub pixel_height: usize,
}

impl Default for PaneSize {
    /// An empty pane.
    fn default() -> (size: Self)
        ensures
            size == (PaneSize { rows: 0, cols: 0, pixel_width: 0, pixel_height: 0 }),
    {
        PaneSize { rows: 0, cols: 0, pixel_width: 0, pixel_height: 0 }
    }
}

/// A pane of a tab with its place on screen; the pane is named by its
/// identifier.
#[derive(Debug, Clone)]
pub struct PositionedPane {
    pub index: usize,
    pub pane_id: PaneId,
    pub left: usize,
    pub top: usize,
    pub width: usize,
    pub height: usize,
    pub pixel_width: usize,
    pub pixel_height: usize,
    pub is_active: bool,
    pub is_zoomed: bool,
}

/// A split line of a tab with its place on screen.
#[derive(Debug, Clone)]
pub struct PositionedSplit {
    pub direction: SplitDirection,
    pub left: usize,
    pub top: usize,
    pub size: usize,
}

/// Holds for a pane entry whose identifier is `id`.
pub open spec fn pane_has_id<P>(id: PaneId) -> spec_fn((PaneId, P)) -> bool {
    |entry: (PaneId, P)| entry.0 == id
}

/// The index of the first pane entry of `panes` whose identifier is `id`.
pub open spec fn pane_position<P>(panes: Seq<(PaneId, P)>, id: PaneId) -> Option<int> {
    first_match(panes, pane_has_id::<P>(id))
}

/// The first pane of `panes` whose identifier is `id`.
pub open spec fn pane_with_id<P>(panes: Seq<(PaneId, P)>, id: PaneId) -> Option<P> {
    match pane_position(panes, id) {
        Some(i) => Some(panes[i].1),
        None => None,
    }
}

/// What a tab holds, as plain values.
pub struct TabView<P> {
    pub tab_id: TabId,
    pub zellij_tab_id: u32,
    /// The panes in the order they were assigned, each with its identifier.
    pub panes: Seq<(PaneId, P)>,
    pub title: Seq<char>,
    pub active: Option<PaneId>,
}

/// A tab and the panes it holds. A pane handle `P` is kept together with
/// the identifier of its pane.
pub struct Tab<P> {
    tab_id: TabId,
    zellij_tab_id: u32,
    panes: Vec<(PaneId, P)>,
    title: String,
    active_pane_id: Option<PaneId>,
}

impl<P> TabView<P> {
    /// The panes of the tab with their places on screen, ignoring zoom: the
    /// tab does not track geometry, so there are none (see
    /// `lemma_no_geometry`).
    pub closed spec fn positioned_panes(self) -> Seq<PositionedPane> {
        Seq::empty()
    }

    /// How the tab would split the pane at `pane_index`: the tab does not
    /// track geometry, so it cannot (see `lemma_no_geometry`).
    pub closed spec fn split_size_for(
        self,
        pane_index: usize,
        split_request: SplitRequest,
    ) -> Option<SplitDirectionAndSize> {
        None
    }
}

impl<P> View for Tab<P> {
    type V = TabView<P>;

    closed spec fn view(&self) -> TabView<P> {
        TabView {
            tab_id: self.tab_id,
            zellij_tab_id: self.zellij_tab_id,
            panes: self.panes@,
            title: self.title@,
            active: self.active_pane_id,
        }
    }
}

impl<P> Tab<P> {
    /// A new tab bound to the zellij tab `zellij_tab_id`, with an identifier
    /// from `ids`, no panes and an empty title.
    pub fn new(ids: &mut IdAllocator, zellij_tab_id: u32) -> (tab: Self)
        ensures
            tab@.tab_id == old(ids)@,
            final(ids)@ == wrapping_succ(old(ids)@),
            tab@.zellij_tab_id == zellij_tab_id,
            tab@.panes == Seq::<(PaneId, P)>::empty(),
            tab@.title == Seq::<char>::empty(),
            tab@.active is None,
    {
        let tab_id: TabId = alloc_tab_id(ids);
        Tab {
            tab_id,
            zellij_tab_id,
            panes: Vec::new(),
            title: String::new(),
            active_pane_id: None,
        }
    }

    /// A new tab bound to no zellij tab (zellij tab id 0).
    pub fn new_orphan(ids: &mut IdAllocator) -> (tab: Self)
        ensures
            tab@.tab_id == old(ids)@,
            final(ids)@ == wrapping_succ(old(ids)@),
            tab@.zellij_tab_id == 0,
            tab@.panes == Seq::<(PaneId, P)>::empty(),
            tab@.title == Seq::<char>::empty(),
            tab@.active is None,
    {
        Self::new(ids, 0)
    }

    pub fn tab_id(&self) -> (id: TabId)
        ensures
            id == self@.tab_id,
    {
        self.tab_id
    }

    pub fn zellij_tab_id(&self) -> (id: u32)
        ensures
            id == self@.zellij_tab_id,
    {
        self.zellij_tab_id
    }

    /// The index of the first pane whose identifier is `pane_id`.
    pub fn position_of(&self, pane_id: PaneId) -> (index: Option<usize>)
        ensures
            match index {
                Some(i) => i < self@.panes.len() && pane_position(self@.panes, pane_id) == Some(
                    i as int,
                ),
                None => pane_position(self@.panes, pane_id) is None,
            },
            match index {
                Some(i) => {
                    &&& i < self@.panes.len()
                    &&& self@.panes[i as int].0 == pane_id
                    &&& forall|j: int| 0 <= j < i ==> (#[trigger] self@.panes[j]).0 != pane_id
                },
                None => forall|j: int|
                    0 <= j < self@.panes.len() ==> (#[trigger] self@.panes[j]).0 != pane_id,
            },
    {
        proof {
            lemma_pane_position(self@.panes, pane_id);
        }
        let ghost p = pane_has_id::<P>(pane_id);
        let mut i: usize = 0;
        while i < self.panes.len()
            invariant
                0 <= i <= self.panes@.len(),
                p == pane_has_id::<P>(pane_id),
                forall|j: int| 0 <= j < i ==> !p(#[trigger] self.panes@[j]),
            decreases self.panes@.len() - i,
        {
            if self.panes[i].0 == pane_id {
                proof {
                    lemma_first_match_unique(self.panes@, p, i as int);
                }
                return Some(i);
            }
            i = i + 1;
        }
        proof {
            lemma_first_match_none(self.panes@, p);
        }
        None
    }

    /// Adds a pane to the tab; the first pane assigned to a tab without an
    /// active pane becomes active.
    pub fn assign_pane(&mut self, pane_id: PaneId, pane: P)
        ensures
            final(self)@ == (TabView {
                panes: old(self)@.panes.push((pane_id, pane)),
                active: if old(self)@.active is None {
                    Some(pane_id)
                } else {
                    old(self)@.active
                },
                ..old(self)@
            }),
    {
        self.panes.push((pane_id, pane));
        if self.active_pane_id.is_none() {
            self.active_pane_id = Some(pane_id);
        }
    }

    /// Makes the pane `pane_id` the active one.
    pub fn set_active_pane(&mut self, pane_id: PaneId)
        ensures
            final(self)@ == (TabView { active: Some(pane_id), ..old(self)@ }),
    {
        self.active_pane_id = Some(pane_id);
    }

    /// The first pane whose identifier is that of the active pane.
    pub fn get_active_pane(&self) -> (pane: Option<&P>)
        ensures
            match self@.active {
                Some(id) => match pane_with_id(self@.panes, id) {
                    Some(p) => pane == Some(&p),
                    None => pane is None,
                },
                None => pane is None,
            },
            match self@.active {
                Some(id) => {
                    &&& pane matches Some(p) ==> exists|i: int|
                        0 <= i < self@.panes.len() && #[trigger] self@.panes[i] == (id, *p)
                            && forall|j: int| 0 <= j < i ==> (#[trigger] self@.panes[j]).0 != id
                    &&& pane is None <==> forall|j: int|
                        0 <= j < self@.panes.len() ==> (#[trigger] self@.panes[j]).0 != id
                },
                None => pane is None,
            },
    {
        proof {
            if let Some(id) = self@.active {
                lemma_pane_with_id(self@.panes, id);
            }
        }
        match self.active_pane_id {
            Some(id) => match self.position_of(id) {
                Some(i) => Some(&self.panes[i].1),
                None => None,
            },
            None => None,
        }
    }

    pub fn count_panes(&self) -> (count: usize)
        ensures
            count == self@.panes.len(),
    {
        self.panes.len()
    }

    pub fn set_title(&mut self, title: &str)
        ensures
            final(self)@ == (TabView { title: title@, ..old(self)@ }),
    {
        self.title = String::from_str(title);
    }

    pub fn get_title(&self) -> (title: String)
        ensures
            title@ == self@.title,
    {
        self.title.clone()
    }

    /// A tab never counts as dead: it does not track the liveness of its
    /// panes.
    pub fn is_dead(&self) -> (dead: bool)
        ensures
            !dead,
    {
        false
    }

    /// Prunes no pane, since no pane is ever known to be dead, and reports
    /// that nothing was pruned.
    pub fn prune_dead_panes(&self) -> (pruned: bool)
        ensures
            !pruned,
    {
        false
    }

    /// Closing a tab never needs a prompt, whatever the reason.
    pub fn can_close_without_prompting<R>(&self, reason: R) -> (ok: bool)
        ensures
            ok,
    {
        true
    }

    pub fn iter_panes_ignoring_zoom(&self) -> (panes: Vec<PositionedPane>)
        ensures
            panes@ == self@.positioned_panes(),
    {
        Vec::new()
    }

    pub fn compute_split_size(
        &self,
        pane_index: usize,
        split_request: SplitRequest,
    ) -> (split: Option<SplitDirectionAndSize>)
        ensures
            split == self@.split_size_for(pane_index, split_request),
    {
        None
    }

    /// Splitting a pane and inserting another is refused; the tab and the
    /// pane handed in stay as they were (the handle is dropped).
    pub fn split_and_insert(
        &mut self,
        pane_index: usize,
        split_request: SplitRequest,
        pane: P,
    ) -> (r: Result<(), MuxError>)
        ensures
            r == Err::<(), MuxError>(MuxError::SplitAndInsertUnimplemented),
            final(self)@ == old(self)@,
    {
        Err(MuxError::SplitAndInsertUnimplemented)
    }

    /// The size of the terminal of the tab: the tab does not track geometry,
    /// so this is the size of an unsized terminal.
    pub fn get_size(&self) -> (size: TerminalSize)
        ensures
            size == TerminalSize::initial(),
    {
        TerminalSize::default()
    }

    /// Removes the first pane whose identifier is `pane_id` and hands it
    /// back; the active pane is left as it was.
    pub fn remove_pane(&mut self, pane_id: PaneId) -> (pane: Option<P>)
        ensures
            match pane_position(old(self)@.panes, pane_id) {
                Some(i) => {
                    &&& pane == Some(old(self)@.panes[i].1)
                    &&& final(self)@ == (TabView { panes: old(self)@.panes.remove(i), ..old(self)@ })
                },
                None => pane is None && final(self)@ == old(self)@,
            },
            pane matches Some(p) ==> exists|i: int|
                0 <= i < old(self)@.panes.len() && #[trigger] old(self)@.panes[i] == (pane_id, p)
                    && (forall|j: int| 0 <= j < i ==> (#[trigger] old(self)@.panes[j]).0 != pane_id)
                    && final(self)@.panes == old(self)@.panes.remove(i),
            pane is None <==> forall|j: int|
                0 <= j < old(self)@.panes.len() ==> (#[trigger] old(self)@.panes[j]).0 != pane_id,
    {
        proof {
            lemma_pane_position(old(self)@.panes, pane_id);
        }
        match self.position_of(pane_id) {
            Some(i) => {
                let (_, pane) = self.panes.remove(i);
                Some(pane)
            },
            None => None,
        }
    }

    /// Marks the panes of domain `domain` as dead: the tab does not track
    /// liveness, so nothing changes.
    pub fn kill_panes_in_domain(&self, domain: DomainId) {
    }
}

/// Looking a pane up by its identifier finds the first entry that carries
/// exactly that identifier, and finds nothing only where no entry carries
/// it.
pub proof fn lemma_pane_position<P>(panes: Seq<(PaneId, P)>, pane_id: PaneId)
    ensures
        match pane_position(panes, pane_id) {
            Some(i) => {
                &&& 0 <= i < panes.len()
                &&& panes[i].0 == pane_id
                &&& forall|j: int| 0 <= j < i ==> (#[trigger] panes[j]).0 != pane_id
            },
            None => forall|j: int| 0 <= j < panes.len() ==> (#[trigger] panes[j]).0 != pane_id,
        },
{
    let p = pane_has_id::<P>(pane_id);
    lemma_first_match(panes, p);
    if let Some(i) = pane_position(panes, pane_id) {
        assert(p(panes[i]));
        assert forall|j: int| 0 <= j < i implies (#[trigger] panes[j]).0 != pane_id by {
            assert(!p(panes[j]));
        }
    } else {
        assert forall|j: int| 0 <= j < panes.len() implies (#[trigger] panes[j]).0 != pane_id by {
            assert(!p(panes[j]));
        }
    }
}

/// The pane found under an identifier is the handle of the first entry
/// that carries exactly that identifier; there is none only where no entry
/// carries it, whatever the number of entries.
pub proof fn lemma_pane_with_id<P>(panes: Seq<(PaneId, P)>, pane_id: PaneId)
    ensures
        match pane_with_id(panes, pane_id) {
            Some(pane) => exists|i: int|
                0 <= i < panes.len() && #[trigger] panes[i] == (pane_id, pane) && forall|j: int|
                    0 <= j < i ==> (#[trigger] panes[j]).0 != pane_id,
            None => forall|j: int| 0 <= j < panes.len() ==> (#[trigger] panes[j]).0 != pane_id,
        },
{
    lemma_pane_position(panes, pane_id);
    if let Some(i) = pane_position(panes, pane_id) {
        assert(panes[i] == (pane_id, panes[i].1));
    }
}

/// A tab tracks no geometry: it has no positioned panes and computes no
/// split.
pub proof fn lemma_no_geometry<P>(tab: TabView<P>, pane_index: usize, split_request: SplitRequest)
    ensures
        tab.positioned_panes() == Seq::<PositionedPane>::empty(),
        tab.split_size_for(pane_index, split_request) is None,
{
}

/// Removing a pane right after assigning it, to a tab that held no pane with
/// its identifier, hands that pane back and leaves the pane list as it was
/// before; until then, it is the pane that the tab finds under its
/// identifier.
pub proof fn lemma_remove_undoes_assign<P>(panes: Seq<(PaneId, P)>, pane_id: PaneId, pane: P)
    requires
        pane_position(panes, pane_id) is None,
    ensures
        pane_position(panes.push((pane_id, pane)), pane_id) == Some(panes.len() as int),
        pane_with_id(panes.push((pane_id, pane)), pane_id) == Some(pane),
        panes.push((pane_id, pane)).remove(panes.len() as int) == panes,
{
    let p = pane_has_id::<P>(pane_id);
    let pushed = panes.push((pane_id, pane));
    lemma_first_match(panes, p);
    assert forall|j: int| 0 <= j < panes.len() implies !p(#[trigger] pushed[j]) by {
        assert(pushed[j] == panes[j]);
        assert(!p(panes[j]));
    }
    assert(is_first_match(pushed, p, panes.len() as int));
    lemma_first_match_unique(pushed, p, panes.len() as int);
    assert(pushed.remove(panes.len() as int) =~= panes);
}

} // verus!
