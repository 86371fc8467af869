//! The ssh remote multiplexer, which is gone: its domain can be built but
//! every operation on it fails.

use vstd::prelude::*;

use portable_pty::CommandBuilder;

use crate::domain::{Domain, DomainState};
use crate::error::MuxError;
use crate::ids::{alloc_domain_id, wrapping_succ, DomainId, IdAllocator, PaneId, WindowId};
use crate::terminal::TerminalSize;

verus! {

/// The part of a configured ssh domain that a remote domain keeps: its
/// name.
pub struct SshDomain {
    pub name: String,
}

/// What a remote ssh domain holds, as plain values.
pub struct RemoteSshDomainView {
    pub name: Seq<char>,
    pub id: DomainId,
}

/// A domain that once tunnelled the multiplexer over ssh.
pub struct RemoteSshDomain {
    name: String,
    id: DomainId,
}

impl View for RemoteSshDomain {
    type V = RemoteSshDomainView;

    closed spec fn view(&self) -> RemoteSshDomainView {
        RemoteSshDomainView { name: self.name@, id: self.id }
    }
}

impl RemoteSshDomain {
    /// A remote domain named after the configured domain `dom`, with an
    /// identifier from `ids`.
    pub fn with_ssh_domain(dom: &SshDomain, ids: &mut IdAllocator) -> (r: Result<Self, MuxError>)
        ensures
            r matches Ok(d) && d@ == (RemoteSshDomainView { name: dom.name@, id: old(ids)@ }),
            final(ids)@ == wrapping_succ(old(ids)@),
    {
        let name = dom.name.clone();
        let id: DomainId = alloc_domain_id(ids);
        Ok(RemoteSshDomain { name, id })
    }
}

impl Domain for RemoteSshDomain {
    open spec fn spec_domain_id(&self) -> DomainId {
        self@.id
    }

    open spec fn spec_domain_name(&self) -> Seq<char> {
        self@.name
    }

    open spec fn spec_state(&self) -> DomainState {
        DomainState::Detached
    }

    open spec fn spec_detachable(&self) -> bool {
        false
    }

    /// The ssh remote multiplexer is gone, so nothing can be spawned in it.
    open spec fn spec_spawnable(&self) -> bool {
        false
    }

    open spec fn spec_spawned(
        &self,
        pane_id: PaneId,
        size: TerminalSize,
        command: Option<CommandBuilder>,
        command_dir: Option<String>,
    ) -> bool {
        false
    }

    open spec fn spec_refused(
        &self,
        e: MuxError,
        size: TerminalSize,
        command: Option<CommandBuilder>,
        command_dir: Option<String>,
    ) -> bool {
        e == MuxError::SshRemoved
    }

    fn spawn_pane<P>(
        &self,
        size: TerminalSize,
        command: Option<CommandBuilder>,
        command_dir: Option<String>,
    ) -> (r: Result<(PaneId, P), MuxError>)
        ensures
            r matches Err(e) && e == MuxError::SshRemoved,
    {
        Err(MuxError::SshRemoved)
    }

    fn spawnable(&self) -> (r: bool) {
        false
    }

    fn detachable(&self) -> (r: bool) {
        false
    }

    fn domain_id(&self) -> (id: DomainId) {
        self.id
    }

    fn domain_name(&self) -> (name: &str) {
        self.name.as_str()
    }

    fn attach(&self, window_id: Option<WindowId>) -> (r: Result<(), MuxError>)
        ensures
            r matches Err(e) && e == MuxError::SshRemoved,
    {
        Err(MuxError::SshRemoved)
    }

    fn detach(&self) -> (r: Result<(), MuxError>)
        ensures
            r matches Err(e) && e == MuxError::SshRemoved,
    {
        Err(MuxError::SshRemoved)
    }

    fn state(&self) -> (state: DomainState) {
        DomainState::Detached
    }
}

/// Connecting over ssh is refused, whatever the configuration and the user
/// interface.
pub fn ssh_connect_with_ui<U>(config: (), ui: U) -> (r: Result<(), MuxError>)
    ensures
        r matches Err(e) && e == MuxError::SshRemoved,
{
    Err(MuxError::SshRemoved)
}

/// Turning a domain into an ssh configuration is refused, whatever the
/// domain.
pub fn ssh_domain_to_ssh_config<D>(dom: &D) -> (r: Result<(), MuxError>)
    ensures
        r matches Err(e) && e == MuxError::SshRemoved,
{
    Err(MuxError::SshRemoved)
}

} // verus!
