//! The errors of the multiplexer and their messages.

use vstd::prelude::*;

use crate::ids::{PaneId, TabId};
use crate::text::{decimal_digits, with_decimal};

verus! {

/// Why an operation of a domain, a tab or a split was refused.
#[derive(Debug, PartialEq, Eq)]
pub enum MuxError {
    /// The local domain cannot spawn panes yet.
    LocalSpawnPaneUnimplemented,
    /// The local domain cannot attach yet.
    LocalAttachUnimplemented,
    /// The local domain cannot detach yet.
    LocalDetachUnimplemented,
    /// WSL domains are not supported.
    WslUnsupported,
    /// Exec domains are not supported.
    ExecDomainUnsupported,
    /// Serial-port domains are not supported.
    SerialDomainUnsupported,
    /// The ssh remote multiplexer is gone.
    SshRemoved,
    /// A tab cannot split a pane and insert another yet.
    SplitAndInsertUnimplemented,
    /// No tab has this identifier.
    InvalidTabId(TabId),
    /// The tab holds no pane with this identifier.
    InvalidPaneId(PaneId),
    /// The tab cannot split the pane at this index.
    InvalidPaneIndex(usize),
    /// No tab holds a pane with this identifier.
    PaneNotFound(PaneId),
    /// The tab that was said to hold the pane does not hold it.
    PaneNotInTab(PaneId),
    /// Spawning failed; the refusal of the domain is the cause.
    Spawn(Box<MuxError>),
}

impl MuxError {
    /// The human-readable message of the error itself; a wrapped cause is
    /// reached through `cause`.
    pub open spec fn message_text(self) -> Seq<char> {
        match self {
            MuxError::LocalSpawnPaneUnimplemented => "LocalDomain::spawn_pane not implemented in Slice 1b.2;              see Slice 1b.3 (Tab + Pane rewrite) for zellij-backed implementation"@,
            MuxError::LocalAttachUnimplemented => "LocalDomain::attach not implemented in Slice 1b.2; see Slice 1b.3"@,
            MuxError::LocalDetachUnimplemented => "LocalDomain::detach not implemented in Slice 1b.2; see Slice 1b.3"@,
            MuxError::WslUnsupported => "WSL domains unsupported in chaoszen; see decision #6"@,
            MuxError::ExecDomainUnsupported => "exec domains unsupported in chaoszen; see decision #6"@,
            MuxError::SerialDomainUnsupported => "serial domains unsupported in chaoszen; see decision #6"@,
            MuxError::SshRemoved => "ssh remote-mux removed in chaoszen; see slice 1b.1"@,
            MuxError::SplitAndInsertUnimplemented => "Tab::split_and_insert not implemented in Slice 1b.3.a; see 1b.3.c"@,
            MuxError::InvalidTabId(id) => "Invalid tab id "@ + decimal_digits(id as nat),
            MuxError::InvalidPaneId(id) => "invalid pane id "@ + decimal_digits(id as nat),
            MuxError::InvalidPaneIndex(index) => "invalid pane index "@ + decimal_digits(index as nat),
            MuxError::PaneNotFound(id) => "pane "@ + decimal_digits(id as nat) + " not found"@,
            MuxError::PaneNotInTab(id) => "pane "@ + decimal_digits(id as nat) + " not found in its containing tab!?"@,
            MuxError::Spawn(_) => "spawn"@,
        }
    }

    /// The error that this one wraps, if any: the next link of its chain.
    pub open spec fn cause_of(self) -> Option<MuxError> {
        match self {
            MuxError::Spawn(cause) => Some(*cause),
            _ => None,
        }
    }

    /// The error that this one wraps, if any.
    pub fn cause(&self) -> (cause: Option<&MuxError>)
        ensures
            match self.cause_of() {
                Some(c) => cause == Some(&c),
                None => cause is None,
            },
    {
        match self {
            MuxError::Spawn(cause) => Some(&**cause),
            _ => None,
        }
    }

    /// Renders the message of the error.
    pub fn message(&self) -> (s: String)
        ensures
            s@ == self.message_text(),
    {
        match self {
            MuxError::LocalSpawnPaneUnimplemented => String::from_str(
                "LocalDomain::spawn_pane not implemented in Slice 1b.2;              see Slice 1b.3 (Tab + Pane rewrite) for zellij-backed implementation",
            ),
            MuxError::LocalAttachUnimplemented => String::from_str(
                "LocalDomain::attach not implemented in Slice 1b.2; see Slice 1b.3",
            ),
            MuxError::LocalDetachUnimplemented => String::from_str(
                "LocalDomain::detach not implemented in Slice 1b.2; see Slice 1b.3",
            ),
            MuxError::WslUnsupported => String::from_str(
                "WSL domains unsupported in chaoszen; see decision #6",
            ),
            MuxError::ExecDomainUnsupported => String::from_str(
                "exec domains unsupported in chaoszen; see decision #6",
            ),
            MuxError::SerialDomainUnsupported => String::from_str(
                "serial domains unsupported in chaoszen; see decision #6",
            ),
            MuxError::SshRemoved => String::from_str(
                "ssh remote-mux removed in chaoszen; see slice 1b.1",
            ),
            MuxError::SplitAndInsertUnimplemented => String::from_str(
                "Tab::split_and_insert not implemented in Slice 1b.3.a; see 1b.3.c",
            ),
            MuxError::InvalidTabId(id) => with_decimal("Invalid tab id ", *id),
            MuxError::InvalidPaneId(id) => with_decimal("invalid pane id ", *id),
            MuxError::InvalidPaneIndex(index) => with_decimal("invalid pane index ", *index),
            MuxError::PaneNotFound(id) => with_decimal("pane ", *id).concat(" not found"),
            MuxError::PaneNotInTab(id) => with_decimal("pane ", *id).concat(
                " not found in its containing tab!?",
            ),
            MuxError::Spawn(_) => String::from_str("spawn"),
        }
    }
}

} // verus!
