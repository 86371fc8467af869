//! A pane backed by a zellij server: the state the pane keeps and the
//! messages it sends to the server for pasted text, typed bytes and
//! resizes.

use vstd::prelude::*;

use crate::ids::{DomainId, PaneId};
use crate::terminal::TerminalSize;

verus! {

/// A pane as the zellij server names it.
#[derive(Debug, Clone, Copy, PartialEq, Eq, Structural)]
pub enum ZellijPaneRef {
    Terminal(u32),
    Plugin(u32),
}

/// An action that a client asks the zellij server to perform.
#[derive(Debug, Clone, PartialEq, Eq)]
pub enum ZellijAction {
    /// Paste `chars` with bracketed paste, into `pane_id` where one is given.
    Paste { chars: String, pane_id: Option<ZellijPaneRef> },
    /// Write `bytes` to the pane `pane_id`.
    WriteToPaneId { bytes: Vec<u8>, pane_id: ZellijPaneRef },
}

/// A message from a client to the zellij server.
#[derive(Debug, Clone, PartialEq, Eq)]
pub enum ZellijMsg {
    /// Perform `action` on behalf of the client `client_id`.
    Action {
        action: ZellijAction,
        terminal_id: Option<u32>,
        client_id: Option<u16>,
        is_cli_client: bool,
    },
    /// The client's terminal now has this many rows and columns.
    TerminalResize { rows: usize, cols: usize },
}

/// `msg` asks the server to write `bytes` to the zellij pane
/// `zellij_pane_id` on behalf of the client `client_id`.
pub open spec fn is_write_msg(msg: ZellijMsg, bytes: Seq<u8>, zellij_pane_id: u32, client_id: u16) -> bool {
    &&& msg matches ZellijMsg::Action { action, terminal_id, client_id: cid, is_cli_client }
    &&& action matches ZellijAction::WriteToPaneId { bytes: b, pane_id }
    &&& b@ == bytes
    &&& pane_id == ZellijPaneRef::Terminal(zellij_pane_id)
    &&& terminal_id == Some(zellij_pane_id)
    &&& cid == Some(client_id)
    &&& !is_cli_client
}

/// `msg` asks the server to paste `chars` into the zellij pane
/// `zellij_pane_id` on behalf of the client `client_id`.
pub open spec fn is_paste_msg(msg: ZellijMsg, chars: Seq<char>, zellij_pane_id: u32, client_id: u16) -> bool {
    &&& msg matches ZellijMsg::Action { action, terminal_id, client_id: cid, is_cli_client }
    &&& action matches ZellijAction::Paste { chars: c, pane_id }
    &&& c@ == chars
    &&& pane_id == Some(ZellijPaneRef::Terminal(zellij_pane_id))
    &&& terminal_id == Some(zellij_pane_id)
    &&& cid == Some(client_id)
    &&& !is_cli_client
}

/// Frames the bytes that a terminal writes as messages to one zellij pane.
pub struct ZellijInputWriter {
    zellij_pane_id: u32,
    client_id: u16,
}

impl ZellijInputWriter {
    /// The zellij pane that the writer targets.
    pub closed spec fn spec_zellij_pane_id(&self) -> u32 {
        self.zellij_pane_id
    }

    /// The zellij client on whose behalf the writer writes.
    pub closed spec fn spec_client_id(&self) -> u16 {
        self.client_id
    }

    pub fn new(zellij_pane_id: u32, client_id: u16) -> (w: Self)
        ensures
            w.spec_zellij_pane_id() == zellij_pane_id,
            w.spec_client_id() == client_id,
    {
        ZellijInputWriter { zellij_pane_id, client_id }
    }

    /// The message that carries `bytes` to the pane; all of `bytes` are
    /// taken, so a write reports `bytes.len()` once the message is sent.
    pub fn write(&self, bytes: &[u8]) -> (msg: ZellijMsg)
        ensures
            is_write_msg(msg, bytes@, self.spec_zellij_pane_id(), self.spec_client_id()),
    {
        let mut copy: Vec<u8> = Vec::new();
        let mut i: usize = 0;
        while i < bytes.len()
            invariant
                0 <= i <= bytes@.len(),
                copy@ == bytes@.subrange(0, i as int),
            decreases bytes@.len() - i,
        {
            copy.push(bytes[i]);
            i = i + 1;
        }
        assert(copy@ == bytes@);
        ZellijMsg::Action {
            action: ZellijAction::WriteToPaneId {
                bytes: copy,
                pane_id: ZellijPaneRef::Terminal(self.zellij_pane_id),
            },
            terminal_id: Some(self.zellij_pane_id),
            client_id: Some(self.client_id),
            is_cli_client: false,
        }
    }
}

/// What a zellij-backed pane holds, as plain values.
pub struct ZellijPaneView {
    pub pane_id: PaneId,
    pub domain_id: DomainId,
    pub zellij_pane_id: u32,
    pub client_id: u16,
    /// Set once the server said that the pane exited.
    pub dead: bool,
}

/// A pane whose contents a zellij server drives. The local terminal that
/// mirrors it and the channel to the server are kept beside it by the
/// caller.
pub struct ZellijPane {
    pane_id: PaneId,
    domain_id: DomainId,
    zellij_pane_id: u32,
    client_id: u16,
    dead: bool,
}

impl View for ZellijPane {
    type V = ZellijPaneView;

    closed spec fn view(&self) -> ZellijPaneView {
        ZellijPaneView {
            pane_id: self.pane_id,
            domain_id: self.domain_id,
            zellij_pane_id: self.zellij_pane_id,
            client_id: self.client_id,
            dead: self.dead,
        }
    }
}

impl ZellijPane {
    /// A live pane `pane_id` of domain `domain_id`, shown by the zellij pane
    /// `zellij_pane_id` to the client `client_id`.
    pub fn new(pane_id: PaneId, domain_id: DomainId, zellij_pane_id: u32, client_id: u16) -> (pane:
        Self)
        ensures
            pane@ == (ZellijPaneView { pane_id, domain_id, zellij_pane_id, client_id, dead: false }),
    {
        ZellijPane { pane_id, domain_id, zellij_pane_id, client_id, dead: false }
    }

    /// The writer through which the pane's local terminal sends what it
    /// encodes (keys, mouse events) to the zellij pane.
    pub fn input_writer(&self) -> (w: ZellijInputWriter)
        ensures
            w.spec_zellij_pane_id() == self@.zellij_pane_id,
            w.spec_client_id() == self@.client_id,
    {
        ZellijInputWriter::new(self.zellij_pane_id, self.client_id)
    }

    pub fn pane_id(&self) -> (id: PaneId)
        ensures
            id == self@.pane_id,
    {
        self.pane_id
    }

    pub fn domain_id(&self) -> (id: DomainId)
        ensures
            id == self@.domain_id,
    {
        self.domain_id
    }

    /// Whether output from the server still goes to the local terminal: it
    /// does until the pane is marked dead.
    pub fn accepts_output(&self) -> (accepts: bool)
        ensures
            accepts == !self@.dead,
    {
        !self.dead
    }

    /// Records that the server said the pane exited. Nothing clears the
    /// mark again.
    pub fn mark_dead(&mut self)
        ensures
            final(self)@ == (ZellijPaneView { dead: true, ..old(self)@ }),
    {
        self.dead = true;
    }

    /// Whether the server said that the pane exited.
    pub fn is_dead(&self) -> (dead: bool)
        ensures
            dead == self@.dead,
    {
        self.dead
    }

    /// The sequence number of the pane's contents: not tracked, so zero.
    pub fn get_current_seqno(&self) -> (seqno: usize)
        ensures
            seqno == 0,
    {
        0
    }

    /// Whether the pane grabs the mouse: not tracked, so no.
    pub fn is_mouse_grabbed(&self) -> (grabbed: bool)
        ensures
            !grabbed,
    {
        false
    }

    /// Whether the pane shows its alternate screen: not tracked, so no.
    pub fn is_alt_screen_active(&self) -> (active: bool)
        ensures
            !active,
    {
        false
    }

    /// The message that pastes `text` into the pane; the server does the
    /// bracketed-paste wrapping.
    pub fn send_paste(&self, text: &str) -> (msg: ZellijMsg)
        ensures
            is_paste_msg(msg, text@, self@.zellij_pane_id, self@.client_id),
    {
        ZellijMsg::Action {
            action: ZellijAction::Paste {
                chars: String::from_str(text),
                pane_id: Some(ZellijPaneRef::Terminal(self.zellij_pane_id)),
            },
            terminal_id: Some(self.zellij_pane_id),
            client_id: Some(self.client_id),
            is_cli_client: false,
        }
    }

    /// The message that tells the server the pane's terminal now has the
    /// rows and columns of `size`.
    pub fn resize(&self, size: TerminalSize) -> (msg: ZellijMsg)
        ensures
            msg == (ZellijMsg::TerminalResize { rows: size.rows, cols: size.cols }),
    {
        ZellijMsg::TerminalResize { rows: size.rows, cols: size.cols }
    }
}

} // verus!
