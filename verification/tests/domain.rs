use mux::domain::{
    detach_pane_for_move, find_pane_index, insert_split_pane, new_tab_for_pane,
    second_pane_terminal_size, split_pane_target, Domain, DomainState, LocalDomain, SplitSource,
};
use mux::error::MuxError;
use mux::ids::IdAllocator;
use mux::ssh::{ssh_connect_with_ui, ssh_domain_to_ssh_config, RemoteSshDomain, SshDomain};
use mux::tab::{
    PaneSize, PositionedPane, SplitDirection, SplitDirectionAndSize, SplitRequest, SplitSize, Tab,
};
use mux::terminal::TerminalSize;

#[test]
fn local_domain_spawn_pane_returns_unimplemented_error() {
    let mut ids = IdAllocator::new();
    let domain = LocalDomain::new("test", &mut ids).expect("LocalDomain::new");
    let result = domain.spawn_pane::<()>(TerminalSize::default(), None, None);
    let err = match result {
        Ok(_) => panic!("expected Err, got Ok"),
        Err(e) => e,
    };
    let s = err.message();
    assert!(s.contains("1b.3"), "{}", format!("expected '1b.3' in error message, got: {s}"));
}

#[test]
fn local_domain_basic_getters() {
    let mut ids = IdAllocator::new();
    let domain = LocalDomain::new("hello", &mut ids).unwrap();
    assert_eq!(domain.domain_name(), "hello");
    assert!(!domain.detachable());
    assert!(matches!(domain.state(), DomainState::Detached));
}

#[test]
fn local_domain_ids_come_from_the_counter() {
    let mut ids = IdAllocator::starting_at(7);
    let a = LocalDomain::new("a", &mut ids).unwrap();
    let b = LocalDomain::new("b", &mut ids).unwrap();
    assert_eq!(a.domain_id(), 7);
    assert_eq!(b.domain_id(), 8);
    assert_eq!(ids.peek(), 9);
}

#[test]
fn local_domain_defaults_and_refusals() {
    let mut ids = IdAllocator::new();
    let domain = LocalDomain::new("local", &mut ids).unwrap();
    assert!(!domain.spawnable());
    assert_eq!(domain.domain_label(), "local");
    assert_eq!(domain.move_pane_to_new_tab(1, None, None), Ok(None));
    assert_eq!(domain.attach(None), Err(MuxError::LocalAttachUnimplemented));
    assert_eq!(domain.detach(), Err(MuxError::LocalDetachUnimplemented));
    assert_eq!(
        domain.detach().unwrap_err().message(),
        "LocalDomain::detach not implemented in Slice 1b.2; see Slice 1b.3"
    );
}

#[test]
fn unsupported_domain_kinds_are_refused() {
    assert_eq!(LocalDomain::new_wsl(()).err(), Some(MuxError::WslUnsupported));
    assert_eq!(LocalDomain::new_exec_domain(()).err(), Some(MuxError::ExecDomainUnsupported));
    assert_eq!(LocalDomain::new_serial_domain(()).err(), Some(MuxError::SerialDomainUnsupported));
    assert_eq!(
        MuxError::WslUnsupported.message(),
        "WSL domains unsupported in chaoszen; see decision #6"
    );
}

#[test]
fn ssh_domain_is_built_but_refuses_everything() {
    let mut ids = IdAllocator::starting_at(3);
    let dom = SshDomain { name: String::from("remote") };
    let domain = RemoteSshDomain::with_ssh_domain(&dom, &mut ids).unwrap();
    assert_eq!(domain.domain_name(), "remote");
    assert_eq!(domain.domain_id(), 3);
    assert!(!domain.detachable());
    assert_eq!(domain.state(), DomainState::Detached);
    assert!(!domain.spawnable());
    assert_eq!(domain.spawn_pane::<()>(TerminalSize::default(), None, None), Err(MuxError::SshRemoved));
    assert_eq!(domain.attach(Some(1)), Err(MuxError::SshRemoved));
    assert_eq!(domain.detach(), Err(MuxError::SshRemoved));
    assert_eq!(ssh_connect_with_ui((), 5u8), Err(MuxError::SshRemoved));
    assert_eq!(ssh_domain_to_ssh_config(&dom), Err(MuxError::SshRemoved));
    assert_eq!(
        MuxError::SshRemoved.message(),
        "ssh remote-mux removed in chaoszen; see slice 1b.1"
    );
}

fn request() -> SplitRequest {
    SplitRequest {
        direction: SplitDirection::Horizontal,
        target_is_second: true,
        size: SplitSize::default(),
        top_level: false,
    }
}

#[test]
fn split_of_a_tab_without_geometry_names_the_pane() {
    let mut ids = IdAllocator::new();
    let mut tab: Tab<&str> = Tab::new(&mut ids, 4);
    tab.assign_pane(12, "pane-12");
    let err = split_pane_target(&tab, 12, request()).unwrap_err();
    assert_eq!(err, MuxError::InvalidPaneId(12));
    assert_eq!(err.message(), "invalid pane id 12");
    assert_eq!(
        insert_split_pane(&mut tab, 12, request(), "new"),
        Err(MuxError::InvalidPaneId(12))
    );
    assert_eq!(tab.count_panes(), 1);
}

#[test]
fn find_pane_index_returns_the_recorded_index_of_the_first_match() {
    let pane = |index: usize, pane_id: usize| PositionedPane {
        index,
        pane_id,
        left: 0,
        top: 0,
        width: 10,
        height: 5,
        pixel_width: 0,
        pixel_height: 0,
        is_active: false,
        is_zoomed: false,
    };
    let panes = vec![pane(4, 1), pane(9, 2), pane(11, 2)];
    assert_eq!(find_pane_index(&panes, 2), Some(9));
    assert_eq!(find_pane_index(&panes, 1), Some(4));
    assert_eq!(find_pane_index(&panes, 3), None);
}

#[test]
fn second_pane_size_drops_the_resolution() {
    let split = SplitDirectionAndSize {
        direction: SplitDirection::Vertical,
        first: PaneSize::default(),
        second: PaneSize { rows: 10, cols: 40, pixel_width: 400, pixel_height: 200 },
    };
    assert_eq!(
        second_pane_terminal_size(&split),
        TerminalSize { rows: 10, cols: 40, pixel_width: 400, pixel_height: 200, dpi: 0 }
    );
}

#[test]
fn moving_a_pane_takes_it_out_of_its_tab() {
    let mut ids = IdAllocator::new();
    let mut tab: Tab<&str> = Tab::new(&mut ids, 0);
    tab.assign_pane(1, "one");
    tab.assign_pane(2, "two");
    let (pane, dead) = detach_pane_for_move(&mut tab, 2).unwrap();
    assert_eq!(pane, "two");
    assert!(!dead);
    assert_eq!(tab.count_panes(), 1);
    let err = detach_pane_for_move(&mut tab, 2).unwrap_err();
    assert_eq!(err, MuxError::PaneNotInTab(2));
    assert_eq!(err.message(), "pane 2 not found in its containing tab!?");
    assert_eq!(MuxError::PaneNotFound(40).message(), "pane 40 not found");
    assert_eq!(MuxError::InvalidTabId(0).message(), "Invalid tab id 0");
    assert_eq!(MuxError::InvalidPaneIndex(1234567).message(), "invalid pane index 1234567");
}

#[test]
fn spawned_pane_gets_a_tab_of_its_own() {
    let mut ids = IdAllocator::starting_at(5);
    let tab = new_tab_for_pane(&mut ids, 8, "eight");
    assert_eq!(tab.tab_id(), 5);
    assert_eq!(tab.zellij_tab_id(), 0);
    assert_eq!(tab.count_panes(), 1);
    assert_eq!(tab.get_active_pane(), Some(&"eight"));
    assert_eq!(ids.peek(), 6);
}

#[test]
fn split_source_carries_a_command_or_a_pane() {
    let spawn = SplitSource::Spawn { command: None, command_dir: Some(String::from("/tmp")) };
    let moved = SplitSource::MovePane(3);
    assert!(matches!(spawn.clone(), SplitSource::Spawn { command: None, .. }));
    assert!(matches!(moved, SplitSource::MovePane(3)));
    assert_eq!(moved.clone(), SplitSource::MovePane(3));
    assert_ne!(spawn, moved);
}
