//! Domains, the instances of a multiplexer that spawn panes, and the
//! decisions of spawning into a new tab and of splitting a pane.

use vstd::prelude::*;

use portable_pty::CommandBuilder;

use crate::error::MuxError;
use crate::ids::{alloc_domain_id, wrapping_succ, DomainId, IdAllocator, PaneId, TabId, WindowId};
use crate::search::{
    first_match, lemma_first_match, lemma_first_match_none, lemma_first_match_unique,
};
use crate::tab::{
    pane_position, PositionedPane, SplitDirectionAndSize, SplitRequest, Tab, TabView,
};
use crate::terminal::TerminalSize;

verus! {

/// The command that a spawned pane runs, as `portable_pty` builds it. The
/// library carries such values through and never looks inside them.
#[verifier::external_type_specification]
#[verifier::external_body]
pub struct ExCommandBuilder(CommandBuilder);

/// Whether a domain is attached.
#[derive(Debug, Clone, Copy, PartialEq, Eq, Structural)]
pub enum DomainState {
    Detached,
    Attached,
}

/// Where the new pane of a split comes from.
#[derive(Debug, Clone, PartialEq)]
pub enum SplitSource {
    /// A freshly spawned command, run in `command_dir` when one is given.
    Spawn { command: Option<CommandBuilder>, command_dir: Option<String> },
    /// An existing pane, moved out of the tab that holds it.
    MovePane(PaneId),
}

/// An instance of a multiplexer.
pub trait Domain {
    /// The identifier of the domain.
    spec fn spec_domain_id(&self) -> DomainId;

    /// The short name of the domain.
    spec fn spec_domain_name(&self) -> Seq<char>;

    /// Whether the domain is attached.
    spec fn spec_state(&self) -> DomainState;

    /// Whether `detach` can ever succeed.
    spec fn spec_detachable(&self) -> bool;

    /// Whether spawning in this domain can ever succeed.
    spec fn spec_spawnable(&self) -> bool;

    /// The domain may answer a request to spawn `command` in `command_dir`
    /// at `size` with a new pane whose identifier is `pane_id`.
    spec fn spec_spawned(
        &self,
        pane_id: PaneId,
        size: TerminalSize,
        command: Option<CommandBuilder>,
        command_dir: Option<String>,
    ) -> bool;

    /// The domain may answer a request to spawn `command` in `command_dir`
    /// at `size` with the refusal `e`.
    spec fn spec_refused(
        &self,
        e: MuxError,
        size: TerminalSize,
        command: Option<CommandBuilder>,
        command_dir: Option<String>,
    ) -> bool;

    /// Spawns a pane of the given size running `command`; the result is the
    /// new pane's identifier together with its handle. It never succeeds in
    /// a domain that is not spawnable.
    fn spawn_pane<P>(
        &self,
        size: TerminalSize,
        command: Option<CommandBuilder>,
        command_dir: Option<String>,
    ) -> (r: Result<(PaneId, P), MuxError>)
        ensures
            r is Ok ==> self.spec_spawnable(),
            r matches Ok((id, _)) ==> self.spec_spawned(id, size, command, command_dir),
            r matches Err(e) ==> self.spec_refused(e, size, command, command_dir),
    ;

    /// Gives the domain a chance to move a pane to a new tab itself; `None`
    /// leaves the move to the caller.
    fn move_pane_to_new_tab(
        &self,
        pane_id: PaneId,
        window_id: Option<WindowId>,
        workspace_for_new_window: Option<String>,
    ) -> (r: Result<Option<(TabId, WindowId)>, MuxError>)
        default_ensures
            r == Ok::<Option<(TabId, WindowId)>, MuxError>(None),
    {
        Ok(None)
    }

    /// False where spawning in this domain never succeeds.
    fn spawnable(&self) -> (r: bool)
        ensures
            r == self.spec_spawnable(),
    ;

    /// Whether `detach` can be used; where it is false, `detach` fails.
    fn detachable(&self) -> (r: bool)
        ensures
            r == self.spec_detachable(),
    ;

    fn domain_id(&self) -> (id: DomainId)
        ensures
            id == self.spec_domain_id(),
    ;

    fn domain_name(&self) -> (name: &str)
        ensures
            name@ == self.spec_domain_name(),
    ;

    /// A label describing the domain; by default its name.
    fn domain_label(&self) -> (label: String)
        default_ensures
            label@ == self.spec_domain_name(),
    {
        String::from_str(self.domain_name())
    }

    /// Re-attaches to the tabs that the domain may already hold.
    fn attach(&self, window_id: Option<WindowId>) -> (r: Result<(), MuxError>);

    /// Detaches all tabs.
    fn detach(&self) -> (r: Result<(), MuxError>)
        ensures
            !self.spec_detachable() ==> r is Err,
    ;

    fn state(&self) -> (state: DomainState)
        ensures
            state == self.spec_state(),
    ;
}

/// What a local domain holds, as plain values.
pub struct LocalDomainView {
    pub name: Seq<char>,
    pub id: DomainId,
    pub state: DomainState,
}

/// The domain of panes that run on this machine.
pub struct LocalDomain {
    name: String,
    id: DomainId,
    state: DomainState,
}

impl View for LocalDomain {
    type V = LocalDomainView;

    closed spec fn view(&self) -> LocalDomainView {
        LocalDomainView { name: self.name@, id: self.id, state: self.state }
    }
}

impl LocalDomain {
    /// A detached local domain named `name`, with an identifier from `ids`.
    pub fn new(name: &str, ids: &mut IdAllocator) -> (r: Result<Self, MuxError>)
        ensures
            r matches Ok(d) && d@ == (LocalDomainView {
                name: name@,
                id: old(ids)@,
                state: DomainState::Detached,
            }),
            final(ids)@ == wrapping_succ(old(ids)@),
    {
        let id: DomainId = alloc_domain_id(ids);
        Ok(LocalDomain { name: String::from_str(name), id, state: DomainState::Detached })
    }

    /// WSL domains are refused, whatever their configuration.
    pub fn new_wsl<D>(dom: D) -> (r: Result<Self, MuxError>)
        ensures
            r matches Err(e) && e == MuxError::WslUnsupported,
    {
        Err(MuxError::WslUnsupported)
    }

    /// Exec domains are refused, whatever their configuration.
    pub fn new_exec_domain<D>(dom: D) -> (r: Result<Self, MuxError>)
        ensures
            r matches Err(e) && e == MuxError::ExecDomainUnsupported,
    {
        Err(MuxError::ExecDomainUnsupported)
    }

    /// Serial-port domains are refused, whatever their configuration.
    pub fn new_serial_domain<D>(dom: D) -> (r: Result<Self, MuxError>)
        ensures
            r matches Err(e) && e == MuxError::SerialDomainUnsupported,
    {
        Err(MuxError::SerialDomainUnsupported)
    }
}

impl Domain for LocalDomain {
    open spec fn spec_domain_id(&self) -> DomainId {
        self@.id
    }

    open spec fn spec_domain_name(&self) -> Seq<char> {
        self@.name
    }

    open spec fn spec_state(&self) -> DomainState {
        self@.state
    }

    open spec fn spec_detachable(&self) -> bool {
        false
    }

    /// The local domain cannot spawn panes yet.
    open spec fn spec_spawnable(&self) -> bool {
        false
    }

    open spec fn spec_spawned(
        &self,
        pane_id: PaneId,
        size: TerminalSize,
        command: Option<CommandBuilder>,
        command_dir: Option<String>,
    ) -> bool {
        false
    }

    open spec fn spec_refused(
        &self,
        e: MuxError,
        size: TerminalSize,
        command: Option<CommandBuilder>,
        command_dir: Option<String>,
    ) -> bool {
        e == MuxError::LocalSpawnPaneUnimplemented
    }

    fn spawn_pane<P>(
        &self,
        size: TerminalSize,
        command: Option<CommandBuilder>,
        command_dir: Option<String>,
    ) -> (r: Result<(PaneId, P), MuxError>)
        ensures
            r matches Err(e) && e == MuxError::LocalSpawnPaneUnimplemented,
    {
        Err(MuxError::LocalSpawnPaneUnimplemented)
    }

    fn spawnable(&self) -> (r: bool) {
        false
    }

    fn detachable(&self) -> (r: bool) {
        false
    }

    fn domain_id(&self) -> (id: DomainId) {
        self.id
    }

    fn domain_name(&self) -> (name: &str) {
        self.name.as_str()
    }

    fn attach(&self, window_id: Option<WindowId>) -> (r: Result<(), MuxError>)
        ensures
            r matches Err(e) && e == MuxError::LocalAttachUnimplemented,
    {
        Err(MuxError::LocalAttachUnimplemented)
    }

    fn detach(&self) -> (r: Result<(), MuxError>)
        ensures
            r matches Err(e) && e == MuxError::LocalDetachUnimplemented,
    {
        Err(MuxError::LocalDetachUnimplemented)
    }

    fn state(&self) -> (state: DomainState) {
        self.state
    }
}

/// Holds for a positioned pane that shows the pane `pane_id`.
pub open spec fn shows_pane(pane_id: PaneId) -> spec_fn(PositionedPane) -> bool {
    |p: PositionedPane| p.pane_id == pane_id
}

/// The index recorded in the first positioned pane that shows `pane_id`.
pub open spec fn positioned_index(panes: Seq<PositionedPane>, pane_id: PaneId) -> Option<usize> {
    match first_match(panes, shows_pane(pane_id)) {
        Some(i) => Some(panes[i].index),
        None => None,
    }
}

/// The index found for a pane is the one recorded in the first positioned
/// pane that shows exactly that pane; none is found only where no
/// positioned pane shows it.
pub proof fn lemma_positioned_index(panes: Seq<PositionedPane>, pane_id: PaneId)
    ensures
        match positioned_index(panes, pane_id) {
            Some(n) => exists|i: int|
                0 <= i < panes.len() && (#[trigger] panes[i]).pane_id == pane_id && panes[i].index == n
                    && forall|j: int| 0 <= j < i ==> (#[trigger] panes[j]).pane_id != pane_id,
            None => forall|j: int| 0 <= j < panes.len() ==> (#[trigger] panes[j]).pane_id != pane_id,
        },
{
    let p = shows_pane(pane_id);
    lemma_first_match(panes, p);
    if let Some(i) = first_match(panes, p) {
        assert(p(panes[i]));
        assert forall|j: int| 0 <= j < i implies (#[trigger] panes[j]).pane_id != pane_id by {
            assert(!p(panes[j]));
        }
    } else {
        assert forall|j: int| 0 <= j < panes.len() implies (#[trigger] panes[j]).pane_id != pane_id by {
            assert(!p(panes[j]));
        }
    }
}

/// The size of the terminal of the second part of a split, at no
/// particular resolution.
pub open spec fn second_terminal_size(split: SplitDirectionAndSize) -> TerminalSize {
    TerminalSize {
        rows: split.second.rows,
        cols: split.second.cols,
        pixel_width: split.second.pixel_width,
        pixel_height: split.second.pixel_height,
        dpi: 0,
    }
}

/// Where in `tab` the pane `pane_id` is split and how large the new pane
/// is, or why the split is refused.
pub open spec fn split_target<P>(tab: TabView<P>, pane_id: PaneId, split_request: SplitRequest) -> Result<
    (usize, TerminalSize),
    MuxError,
> {
    match positioned_index(tab.positioned_panes(), pane_id) {
        None => Err(MuxError::InvalidPaneId(pane_id)),
        Some(index) => match tab.split_size_for(index, split_request) {
            None => Err(MuxError::InvalidPaneIndex(index)),
            Some(split) => Ok((index, second_terminal_size(split))),
        },
    }
}

/// The index recorded in the first positioned pane that shows `pane_id`.
pub fn find_pane_index(panes: &Vec<PositionedPane>, pane_id: PaneId) -> (index: Option<usize>)
    ensures
        index == positioned_index(panes@, pane_id),
        match index {
            Some(n) => exists|i: int|
                0 <= i < panes@.len() && (#[trigger] panes@[i]).pane_id == pane_id && panes@[i].index
                    == n && forall|j: int| 0 <= j < i ==> (#[trigger] panes@[j]).pane_id != pane_id,
            None => forall|j: int| 0 <= j < panes@.len() ==> (#[trigger] panes@[j]).pane_id != pane_id,
        },
{
    proof {
        lemma_positioned_index(panes@, pane_id);
    }
    let ghost p = shows_pane(pane_id);
    let mut i: usize = 0;
    while i < panes.len()
        invariant
            0 <= i <= panes@.len(),
            p == shows_pane(pane_id),
            forall|j: int| 0 <= j < i ==> !p(#[trigger] panes@[j]),
        decreases panes@.len() - i,
    {
        if panes[i].pane_id == pane_id {
            proof {
                lemma_first_match_unique(panes@, p, i as int);
            }
            return Some(panes[i].index);
        }
        i = i + 1;
    }
    proof {
        lemma_first_match_none(panes@, p);
    }
    None
}

/// The terminal size of the second part of `split`.
pub fn second_pane_terminal_size(split: &SplitDirectionAndSize) -> (size: TerminalSize)
    ensures
        size == second_terminal_size(*split),
{
    TerminalSize {
        rows: split.second.rows,
        cols: split.second.cols,
        pixel_width: split.second.pixel_width,
        pixel_height: split.second.pixel_height,
        dpi: 0,
    }
}

/// Decides where in `tab` the pane `pane_id` is split and how large the
/// new pane is: the index comes from the tab's positioned panes, the size
/// from the tab's split computation.
pub fn split_pane_target<P>(tab: &Tab<P>, pane_id: PaneId, split_request: SplitRequest) -> (r: Result<
    (usize, TerminalSize),
    MuxError,
>)
    ensures
        r == split_target(tab@, pane_id, split_request),
{
    let panes = tab.iter_panes_ignoring_zoom();
    let index: usize = match find_pane_index(&panes, pane_id) {
        Some(index) => index,
        None => return Err(MuxError::InvalidPaneId(pane_id)),
    };
    let split = match tab.compute_split_size(index, split_request) {
        Some(split) => split,
        None => return Err(MuxError::InvalidPaneIndex(index)),
    };
    Ok((index, second_pane_terminal_size(&split)))
}

/// Takes the pane `src_pane_id` out of the tab that holds it, for moving it
/// into a split; the flag says whether that tab is dead afterwards.
pub fn detach_pane_for_move<P>(src_tab: &mut Tab<P>, src_pane_id: PaneId) -> (r: Result<
    (P, bool),
    MuxError,
>)
    ensures
        match pane_position(old(src_tab)@.panes, src_pane_id) {
            Some(i) => {
                &&& r matches Ok((pane, dead)) && pane == old(src_tab)@.panes[i].1 && !dead
                &&& final(src_tab)@ == (TabView {
                    panes: old(src_tab)@.panes.remove(i),
                    ..old(src_tab)@
                })
            },
            None => {
                &&& r matches Err(e) && e == MuxError::PaneNotInTab(src_pane_id)
                &&& final(src_tab)@ == old(src_tab)@
            },
        },
{
    match src_tab.remove_pane(src_pane_id) {
        Some(pane) => {
            let dead = src_tab.is_dead();
            Ok((pane, dead))
        },
        None => Err(MuxError::PaneNotInTab(src_pane_id)),
    }
}

/// Inserts `pane` into `tab` by splitting the pane `pane_id`, whose index is
/// looked up again since moving a pane may have changed it.
pub fn insert_split_pane<P>(
    tab: &mut Tab<P>,
    pane_id: PaneId,
    split_request: SplitRequest,
    pane: P,
) -> (r: Result<(), MuxError>)
    ensures
        final(tab)@ == old(tab)@,
        match positioned_index(old(tab)@.positioned_panes(), pane_id) {
            None => r == Err::<(), MuxError>(MuxError::InvalidPaneId(pane_id)),
            Some(_) => r == Err::<(), MuxError>(MuxError::SplitAndInsertUnimplemented),
        },
{
    let panes = tab.iter_panes_ignoring_zoom();
    let index: usize = match find_pane_index(&panes, pane_id) {
        Some(index) => index,
        None => return Err(MuxError::InvalidPaneId(pane_id)),
    };
    tab.split_and_insert(index, split_request, pane)
}

/// The tab that a freshly spawned pane goes into: a new tab bound to no
/// zellij tab, holding that pane as its active one.
pub fn new_tab_for_pane<P>(ids: &mut IdAllocator, pane_id: PaneId, pane: P) -> (tab: Tab<P>)
    ensures
        tab@ == (TabView {
            tab_id: old(ids)@,
            zellij_tab_id: 0,
            panes: seq![(pane_id, pane)],
            title: Seq::<char>::empty(),
            active: Some(pane_id),
        }),
        final(ids)@ == wrapping_succ(old(ids)@),
{
    let mut tab = Tab::new_orphan(ids);
    tab.assign_pane(pane_id, pane);
    tab
}

} // verus!
