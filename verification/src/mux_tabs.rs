//! The registry of tabs, each in its window, and the two operations of a
//! domain that work on it: spawning a command into a new tab and splitting
//! a pane of a tab.

use vstd::prelude::*;

use portable_pty::CommandBuilder;

use crate::domain::{
    detach_pane_for_move, insert_split_pane, new_tab_for_pane, split_pane_target, split_target,
    Domain, SplitSource,
};
use crate::error::MuxError;
use crate::ids::{wrapping_succ, IdAllocator, PaneId, TabId, WindowId};
use crate::search::{
    first_match, lemma_first_match, lemma_first_match_none, lemma_first_match_same,
    lemma_first_match_unique,
};
use crate::tab::{lemma_no_geometry, lemma_pane_position, pane_position, SplitRequest, Tab, TabView};
use crate::terminal::TerminalSize;

verus! {

/// Holds for a registry entry whose tab is `tab_id`.
pub open spec fn holds_tab<P>(tab_id: TabId) -> spec_fn((WindowId, TabView<P>)) -> bool {
    |entry: (WindowId, TabView<P>)| entry.1.tab_id == tab_id
}

/// Holds for a registry entry whose tab holds the pane `pane_id`.
pub open spec fn holds_pane<P>(pane_id: PaneId) -> spec_fn((WindowId, TabView<P>)) -> bool {
    |entry: (WindowId, TabView<P>)| pane_position(entry.1.panes, pane_id) is Some
}

/// The tab `tab` holds an entry with the identifier `pane_id`.
pub open spec fn tab_holds_pane<P>(tab: TabView<P>, pane_id: PaneId) -> bool {
    exists|k: int| 0 <= k < tab.panes.len() && (#[trigger] tab.panes[k]).0 == pane_id
}

/// A registry entry as plain values.
pub open spec fn entry_view<P>(entry: (WindowId, Tab<P>)) -> (WindowId, TabView<P>) {
    (entry.0, entry.1@)
}

/// The place of the first entry of `tabs` whose tab is `tab_id`.
pub open spec fn tab_index<P>(tabs: Seq<(WindowId, TabView<P>)>, tab_id: TabId) -> Option<int> {
    first_match(tabs, holds_tab::<P>(tab_id))
}

/// The place of the first entry of `tabs` whose tab holds the pane
/// `pane_id`.
pub open spec fn pane_tab_index<P>(tabs: Seq<(WindowId, TabView<P>)>, pane_id: PaneId) -> Option<int> {
    first_match(tabs, holds_pane::<P>(pane_id))
}

/// `after` is `before` with the pane `pane_id` taken out of the tab at
/// place `i`, and nothing else changed.
pub open spec fn pane_taken_out<P>(
    before: Seq<(WindowId, TabView<P>)>,
    after: Seq<(WindowId, TabView<P>)>,
    i: int,
    pane_id: PaneId,
) -> bool {
    &&& 0 <= i < before.len()
    &&& after.len() == before.len()
    &&& forall|j: int| 0 <= j < before.len() && j != i ==> #[trigger] after[j] == before[j]
    &&& after[i].0 == before[i].0
    &&& pane_position(before[i].1.panes, pane_id) matches Some(k) && after[i].1 == (TabView {
        panes: before[i].1.panes.remove(k),
        ..before[i].1
    })
}

/// Looking a tab up by its identifier finds the first tab whose
/// identifier is exactly that one, and finds nothing only where no tab has
/// it.
pub proof fn lemma_tab_index<P>(tabs: Seq<(WindowId, TabView<P>)>, tab_id: TabId)
    ensures
        match tab_index(tabs, tab_id) {
            Some(i) => {
                &&& 0 <= i < tabs.len()
                &&& tabs[i].1.tab_id == tab_id
                &&& forall|j: int| 0 <= j < i ==> (#[trigger] tabs[j]).1.tab_id != tab_id
            },
            None => forall|j: int| 0 <= j < tabs.len() ==> (#[trigger] tabs[j]).1.tab_id != tab_id,
        },
{
    let p = holds_tab::<P>(tab_id);
    lemma_first_match(tabs, p);
    if let Some(i) = tab_index(tabs, tab_id) {
        assert(p(tabs[i]));
        assert forall|j: int| 0 <= j < i implies (#[trigger] tabs[j]).1.tab_id != tab_id by {
            assert(!p(tabs[j]));
        }
    } else {
        assert forall|j: int| 0 <= j < tabs.len() implies (#[trigger] tabs[j]).1.tab_id != tab_id by {
            assert(!p(tabs[j]));
        }
    }
}

/// Resolving a pane finds the first tab that holds an entry with exactly
/// that pane identifier, and finds nothing only where no tab holds one.
pub proof fn lemma_pane_tab_index<P>(tabs: Seq<(WindowId, TabView<P>)>, pane_id: PaneId)
    ensures
        match pane_tab_index(tabs, pane_id) {
            Some(i) => {
                &&& 0 <= i < tabs.len()
                &&& tab_holds_pane(tabs[i].1, pane_id)
                &&& forall|j: int| 0 <= j < i ==> !tab_holds_pane(#[trigger] tabs[j].1, pane_id)
            },
            None => forall|j: int| 0 <= j < tabs.len() ==> !tab_holds_pane(#[trigger] tabs[j].1, pane_id),
        },
        forall|j: int|
            0 <= j < tabs.len() ==> holds_pane::<P>(pane_id)(#[trigger] tabs[j]) == tab_holds_pane(
                tabs[j].1,
                pane_id,
            ),
{
    let p = holds_pane::<P>(pane_id);
    lemma_first_match(tabs, p);
    assert forall|j: int| 0 <= j < tabs.len() implies p(tabs[j]) == tab_holds_pane(
        #[trigger] tabs[j].1,
        pane_id,
    ) by {
        lemma_pane_position(tabs[j].1.panes, pane_id);
        if let Some(k) = pane_position(tabs[j].1.panes, pane_id) {
            assert(tabs[j].1.panes[k].0 == pane_id);
        }
    }
    if let Some(i) = pane_tab_index(tabs, pane_id) {
        assert(p(tabs[i]));
    }
}

/// The tabs of the multiplexer in the order they were added, each with the
/// window that shows it.
pub struct MuxTabs<P> {
    tabs: Vec<(WindowId, Tab<P>)>,
}

impl<P> View for MuxTabs<P> {
    type V = Seq<(WindowId, TabView<P>)>;

    closed spec fn view(&self) -> Seq<(WindowId, TabView<P>)> {
        self.tabs@.map_values(|entry: (WindowId, Tab<P>)| entry_view(entry))
    }
}

impl<P> MuxTabs<P> {
    /// A registry without tabs.
    pub fn new() -> (mux: Self)
        ensures
            mux@ == Seq::<(WindowId, TabView<P>)>::empty(),
    {
        let mux = MuxTabs { tabs: Vec::new() };
        assert(mux@ =~= Seq::<(WindowId, TabView<P>)>::empty());
        mux
    }

    pub fn tab_count(&self) -> (n: usize)
        ensures
            n == self@.len(),
    {
        self.tabs.len()
    }

    /// The place of the first tab whose identifier is `tab_id`.
    pub fn find_tab(&self, tab_id: TabId) -> (index: Option<usize>)
        ensures
            match index {
                Some(i) => i < self@.len() && tab_index(self@, tab_id) == Some(i as int),
                None => tab_index(self@, tab_id) is None,
            },
            match index {
                Some(i) => {
                    &&& i < self@.len()
                    &&& self@[i as int].1.tab_id == tab_id
                    &&& forall|j: int| 0 <= j < i ==> (#[trigger] self@[j]).1.tab_id != tab_id
                },
                None => forall|j: int| 0 <= j < self@.len() ==> (#[trigger] self@[j]).1.tab_id != tab_id,
            },
    {
        proof {
            lemma_tab_index(self@, tab_id);
        }
        let ghost p = holds_tab::<P>(tab_id);
        let mut i: usize = 0;
        while i < self.tabs.len()
            invariant
                0 <= i <= self.tabs@.len(),
                self@.len() == self.tabs@.len(),
                p == holds_tab::<P>(tab_id),
                forall|j: int| 0 <= j < i ==> !p(#[trigger] self@[j]),
            decreases self.tabs@.len() - i,
        {
            if self.tabs[i].1.tab_id() == tab_id {
                proof {
                    lemma_first_match_unique(self@, p, i as int);
                }
                return Some(i);
            }
            i = i + 1;
        }
        proof {
            lemma_first_match_none(self@, p);
        }
        None
    }

    /// The place of the first tab that holds the pane `pane_id`.
    pub fn find_pane_tab(&self, pane_id: PaneId) -> (index: Option<usize>)
        ensures
            match index {
                Some(i) => i < self@.len() && pane_tab_index(self@, pane_id) == Some(i as int),
                None => pane_tab_index(self@, pane_id) is None,
            },
            match index {
                Some(i) => {
                    &&& i < self@.len()
                    &&& tab_holds_pane(self@[i as int].1, pane_id)
                    &&& forall|j: int| 0 <= j < i ==> !tab_holds_pane(#[trigger] self@[j].1, pane_id)
                },
                None => forall|j: int|
                    0 <= j < self@.len() ==> !tab_holds_pane(#[trigger] self@[j].1, pane_id),
            },
    {
        proof {
            lemma_pane_tab_index(self@, pane_id);
        }
        let ghost p = holds_pane::<P>(pane_id);
        let mut i: usize = 0;
        while i < self.tabs.len()
            invariant
                0 <= i <= self.tabs@.len(),
                self@.len() == self.tabs@.len(),
                p == holds_pane::<P>(pane_id),
                forall|j: int| 0 <= j < i ==> !p(#[trigger] self@[j]),
            decreases self.tabs@.len() - i,
        {
            if self.tabs[i].1.position_of(pane_id).is_some() {
                proof {
                    lemma_first_match_unique(self@, p, i as int);
                    lemma_pane_tab_index(self@, pane_id);
                    assert forall|j: int| 0 <= j < i implies !tab_holds_pane(
                        #[trigger] self@[j].1,
                        pane_id,
                    ) by {
                        assert(!p(self@[j]));
                    }
                }
                return Some(i);
            }
            i = i + 1;
        }
        proof {
            lemma_first_match_none(self@, p);
        }
        None
    }

    /// The first tab whose identifier is `tab_id`.
    pub fn get_tab(&self, tab_id: TabId) -> (tab: Option<&Tab<P>>)
        ensures
            match tab_index(self@, tab_id) {
                Some(i) => tab matches Some(t) && t@ == self@[i].1,
                None => tab is None,
            },
            tab matches Some(t) ==> t@.tab_id == tab_id && exists|i: int|
                0 <= i < self@.len() && #[trigger] self@[i].1 == t@,
            tab is None <==> forall|j: int| 0 <= j < self@.len() ==> (#[trigger] self@[j]).1.tab_id != tab_id,
    {
        proof {
            lemma_tab_index(self@, tab_id);
        }
        match self.find_tab(tab_id) {
            Some(i) => Some(&self.tabs[i].1),
            None => None,
        }
    }

    /// The window and the tab of the first tab that holds the pane
    /// `pane_id`.
    pub fn resolve_pane_id(&self, pane_id: PaneId) -> (place: Option<(WindowId, TabId)>)
        ensures
            match pane_tab_index(self@, pane_id) {
                Some(i) => place == Some((self@[i].0, self@[i].1.tab_id)),
                None => place is None,
            },
    {
        match self.find_pane_tab(pane_id) {
            Some(i) => Some((self.tabs[i].0, self.tabs[i].1.tab_id())),
            None => None,
        }
    }

    /// Adds `tab` to the registry, shown in `window`, and returns its
    /// identifier.
    pub fn add_tab_to_window(&mut self, tab: Tab<P>, window: WindowId) -> (tab_id: TabId)
        ensures
            tab_id == tab@.tab_id,
            final(self)@ == old(self)@.push((window, tab@)),
    {
        let tab_id: TabId = tab.tab_id();
        let ghost tv = tab@;
        self.tabs.push((window, tab));
        assert(self@ =~= old(self)@.push((window, tv)));
        tab_id
    }

    /// Removes the first tab whose identifier is `tab_id` and hands it back.
    pub fn remove_tab(&mut self, tab_id: TabId) -> (tab: Option<Tab<P>>)
        ensures
            match tab_index(old(self)@, tab_id) {
                Some(i) => tab matches Some(t) && t@ == old(self)@[i].1 && final(self)@ == old(
                    self,
                )@.remove(i),
                None => tab is None && final(self)@ == old(self)@,
            },
            tab matches Some(t) ==> t@.tab_id == tab_id,
            tab is None <==> forall|j: int|
                0 <= j < old(self)@.len() ==> (#[trigger] old(self)@[j]).1.tab_id != tab_id,
    {
        proof {
            lemma_tab_index(old(self)@, tab_id);
        }
        match self.find_tab(tab_id) {
            Some(i) => {
                let (_, tab) = self.tabs.remove(i);
                assert(self@ =~= old(self)@.remove(i as int));
                Some(tab)
            },
            None => None,
        }
    }
}

/// Spawns a command in `domain` and shows its pane in a new tab of
/// `window`. A domain that is not spawnable never gets this far; its
/// refusal comes back wrapped as the cause of a `Spawn` error, with the
/// registry and the counter as they were.
pub fn spawn<D: Domain, P>(
    domain: &D,
    mux: &mut MuxTabs<P>,
    ids: &mut IdAllocator,
    size: TerminalSize,
    command: Option<CommandBuilder>,
    command_dir: Option<String>,
    window: WindowId,
) -> (r: Result<TabId, MuxError>)
    ensures
        !domain.spec_spawnable() ==> r is Err,
        r matches Err(e) ==> {
            &&& e matches MuxError::Spawn(cause) && domain.spec_refused(
                *cause,
                size,
                command,
                command_dir,
            )
            &&& final(mux)@ == old(mux)@
            &&& final(ids)@ == old(ids)@
        },
        r matches Ok(tab_id) ==> {
            let n = old(mux)@.len();
            let added = final(mux)@[n as int];
            &&& tab_id == old(ids)@
            &&& final(ids)@ == wrapping_succ(old(ids)@)
            &&& final(mux)@.len() == n + 1
            &&& final(mux)@.subrange(0, n as int) == old(mux)@
            &&& added.0 == window
            &&& added.1.tab_id == tab_id
            &&& added.1.zellij_tab_id == 0
            &&& added.1.panes.len() == 1
            &&& added.1.active == Some(added.1.panes[0].0)
            &&& added.1.title == Seq::<char>::empty()
            &&& domain.spec_spawned(added.1.panes[0].0, size, command, command_dir)
        },
{
    let (pane_id, pane) = match domain.spawn_pane::<P>(size, command, command_dir) {
        Ok(spawned) => spawned,
        Err(e) => return Err(MuxError::Spawn(Box::new(e))),
    };
    let tab = new_tab_for_pane(ids, pane_id, pane);
    let tab_id: TabId = mux.add_tab_to_window(tab, window);
    assert(mux@.subrange(0, old(mux)@.len() as int) =~= old(mux)@);
    Ok(tab_id)
}

/// Splits the pane `pane_id` of the tab `tab_id` and puts a pane from
/// `source` into the new part. The tab is looked up first, then where and
/// how large the split is; only then is a pane spawned, with the size of
/// the new part, or moved out of the tab that holds it (which is dropped
/// when that leaves it dead). The tab is looked up again before the pane
/// goes in.
pub fn split_pane<D: Domain, P: Clone>(
    domain: &D,
    mux: &mut MuxTabs<P>,
    source: SplitSource,
    tab_id: TabId,
    pane_id: PaneId,
    split_request: SplitRequest,
) -> (r: Result<P, MuxError>)
    ensures
        (forall|j: int| 0 <= j < old(mux)@.len() ==> (#[trigger] old(mux)@[j]).1.tab_id != tab_id)
            ==> r == Err::<P, MuxError>(MuxError::InvalidTabId(tab_id)) && final(mux)@ == old(mux)@,
        (exists|j: int| 0 <= j < old(mux)@.len() && (#[trigger] old(mux)@[j]).1.tab_id == tab_id)
            ==> r == Err::<P, MuxError>(MuxError::InvalidPaneId(pane_id)) && final(mux)@ == old(mux)@,
        tab_index(old(mux)@, tab_id) is Some ==> {
            &&& r == Err::<P, MuxError>(MuxError::InvalidPaneId(pane_id))
            &&& final(mux)@ == old(mux)@
        },
        match tab_index(old(mux)@, tab_id) {
            None => r == Err::<P, MuxError>(MuxError::InvalidTabId(tab_id)) && final(mux)@ == old(
                mux,
            )@,
            Some(ti) => match split_target(old(mux)@[ti].1, pane_id, split_request) {
                Err(e) => r == Err::<P, MuxError>(e) && final(mux)@ == old(mux)@,
                Ok((_, size)) => {
                    &&& r is Err
                    &&& match source {
                        SplitSource::Spawn { command, command_dir } => {
                            &&& final(mux)@ == old(mux)@
                            &&& r matches Err(e) && (domain.spec_refused(
                                e,
                                size,
                                command,
                                command_dir,
                            ) || e == MuxError::InvalidPaneId(pane_id) || e
                                == MuxError::SplitAndInsertUnimplemented)
                        },
                        SplitSource::MovePane(src) => match pane_tab_index(old(mux)@, src) {
                            None => r == Err::<P, MuxError>(MuxError::PaneNotFound(src))
                                && final(mux)@ == old(mux)@,
                            Some(si) => pane_taken_out(old(mux)@, final(mux)@, si, src),
                        },
                    }
                },
            },
        },
{
    proof {
        lemma_tab_index(mux@, tab_id);
    }
    let ti: usize = match mux.find_tab(tab_id) {
        Some(i) => i,
        None => return Err(MuxError::InvalidTabId(tab_id)),
    };
    proof {
        lemma_no_geometry(mux@[ti as int].1, 0, split_request);
        assert(mux@[ti as int] == entry_view(mux.tabs@[ti as int]));
    }
    let second_size: TerminalSize = match split_pane_target(&mux.tabs[ti].1, pane_id, split_request) {
        Ok((_, size)) => size,
        Err(e) => return Err(e),
    };
    let ghost before = mux@;
    let ghost moved_src: Option<PaneId> = match source {
        SplitSource::MovePane(src) => Some(src),
        _ => None,
    };
    let pane: P = match source {
        SplitSource::Spawn { command, command_dir } => {
            match domain.spawn_pane::<P>(second_size, command, command_dir) {
                Ok((_, pane)) => pane,
                Err(e) => return Err(e),
            }
        },
        SplitSource::MovePane(src_pane_id) => {
            let si: usize = match mux.find_pane_tab(src_pane_id) {
                Some(i) => i,
                None => return Err(MuxError::PaneNotFound(src_pane_id)),
            };
            proof {
                lemma_first_match(mux@, holds_pane::<P>(src_pane_id));
                assert(mux@[si as int] == entry_view(mux.tabs@[si as int]));
            }
            let (window, mut src_tab) = mux.tabs.remove(si);
            let moved = detach_pane_for_move(&mut src_tab, src_pane_id);
            match moved {
                Ok((pane, src_tab_dead)) => {
                    if !src_tab_dead {
                        mux.tabs.insert(si, (window, src_tab));
                    }
                    pane
                },
                Err(e) => {
                    assert(false);
                    return Err(e);
                },
            }
        },
    };
    proof {
        if let Some(src) = moved_src {
            let si = pane_tab_index(before, src)->0;
            assert(mux@ =~= before.update(si, mux@[si]));
            assert forall|j: int| 0 <= j < before.len() implies holds_tab::<P>(tab_id)(
                #[trigger] before[j],
            ) == holds_tab::<P>(tab_id)(mux@[j]) by {
                if j != si {
                    assert(mux@[j] == before[j]);
                }
            }
            lemma_first_match_same(before, holds_tab::<P>(tab_id), mux@, holds_tab::<P>(tab_id));
        }
    }
    let ti2: usize = match mux.find_tab(tab_id) {
        Some(i) => i,
        None => return Err(MuxError::InvalidTabId(tab_id)),
    };
    let (window, mut tab) = mux.tabs.remove(ti2);
    let inserted = insert_split_pane(&mut tab, pane_id, split_request, pane.clone());
    mux.tabs.insert(ti2, (window, tab));
    match inserted {
        Ok(()) => Ok(pane),
        Err(e) => Err(e),
    }
}

} // verus!
