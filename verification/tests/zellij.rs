use mux::terminal::TerminalSize;
use mux::zellij::{ZellijAction, ZellijInputWriter, ZellijMsg, ZellijPane, ZellijPaneRef};

#[test]
fn zellij_pane_skeleton_constructs_with_pane_id() {
    let pane = ZellijPane::new(42, 1, 1, 1);
    assert_eq!(pane.pane_id(), 42);
    assert_eq!(pane.domain_id(), 1);
}

#[test]
fn send_paste_emits_paste_action_with_pane_id() {
    let pane = ZellijPane::new(1, 1, 5, 1);
    let msg = pane.send_paste("hi\n");
    match msg {
        ZellijMsg::Action { action: ZellijAction::Paste { chars, pane_id }, .. } => {
            assert_eq!(chars, "hi\n");
            assert_eq!(pane_id, Some(ZellijPaneRef::Terminal(5)));
        }
        other => panic!("expected Paste, got: {:?}", other),
    }
}

#[test]
fn writer_emits_write_to_pane_id_action() {
    let writer = ZellijInputWriter::new(7, 1);
    let msg = writer.write(b"hello");
    match msg {
        ZellijMsg::Action {
            action: ZellijAction::WriteToPaneId { bytes, pane_id },
            terminal_id,
            client_id,
            is_cli_client,
        } => {
            assert_eq!(bytes, b"hello");
            assert!(matches!(pane_id, ZellijPaneRef::Terminal(7)));
            assert_eq!(terminal_id, Some(7));
            assert_eq!(client_id, Some(1));
            assert!(!is_cli_client);
        }
        other => panic!("unexpected msg: {:?}", other),
    }
}

#[test]
fn pane_input_writer_targets_the_pane() {
    let pane = ZellijPane::new(3, 2, 9, 4);
    let msg = pane.input_writer().write(b"a");
    assert_eq!(
        msg,
        ZellijMsg::Action {
            action: ZellijAction::WriteToPaneId {
                bytes: b"a".to_vec(),
                pane_id: ZellijPaneRef::Terminal(9),
            },
            terminal_id: Some(9),
            client_id: Some(4),
            is_cli_client: false,
        }
    );
}

#[test]
fn resize_emits_terminal_resize() {
    let pane = ZellijPane::new(1, 1, 1, 1);
    let msg = pane.resize(TerminalSize { rows: 30, cols: 100, ..Default::default() });
    match msg {
        ZellijMsg::TerminalResize { rows, cols } => {
            assert_eq!(rows, 30);
            assert_eq!(cols, 100);
        }
        other => panic!("expected TerminalResize, got: {:?}", other),
    }
}

#[test]
fn dead_pane_stops_accepting_output() {
    let mut pane = ZellijPane::new(1, 1, 1, 1);
    assert!(pane.accepts_output());
    assert!(!pane.is_dead());
    pane.mark_dead();
    assert!(!pane.accepts_output());
    assert!(pane.is_dead());
    pane.mark_dead();
    assert!(!pane.accepts_output());
    assert!(pane.is_dead());
    assert_eq!(pane.get_current_seqno(), 0);
    assert!(!pane.is_mouse_grabbed());
    assert!(!pane.is_alt_screen_active());
}
