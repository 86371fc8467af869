use mux::domain::{Domain, LocalDomain, SplitSource};
use mux::error::MuxError;
use mux::ids::IdAllocator;
use mux::mux_tabs::{spawn, split_pane, MuxTabs};
use mux::ssh::{RemoteSshDomain, SshDomain};
use mux::tab::{SplitDirection, SplitRequest, SplitSize, Tab};
use mux::terminal::TerminalSize;

fn request() -> SplitRequest {
    SplitRequest {
        direction: SplitDirection::Vertical,
        target_is_second: true,
        size: SplitSize::Percent(50),
        top_level: false,
    }
}

fn registry(ids: &mut IdAllocator) -> MuxTabs<&'static str> {
    let mut mux = MuxTabs::new();
    let mut first: Tab<&'static str> = Tab::new(ids, 1);
    first.assign_pane(10, "ten");
    first.assign_pane(11, "eleven");
    let mut second: Tab<&'static str> = Tab::new(ids, 2);
    second.assign_pane(20, "twenty");
    assert_eq!(mux.add_tab_to_window(first, 100), 0);
    assert_eq!(mux.add_tab_to_window(second, 200), 1);
    mux
}

#[test]
fn registry_finds_tabs_and_panes() {
    let mut ids = IdAllocator::new();
    let mut mux = registry(&mut ids);
    assert_eq!(mux.tab_count(), 2);
    assert_eq!(mux.resolve_pane_id(11), Some((100, 0)));
    assert_eq!(mux.resolve_pane_id(20), Some((200, 1)));
    assert_eq!(mux.resolve_pane_id(30), None);
    assert_eq!(mux.get_tab(1).map(|t| t.count_panes()), Some(1));
    assert!(mux.get_tab(5).is_none());
    let removed = mux.remove_tab(0).expect("tab 0");
    assert_eq!(removed.zellij_tab_id(), 1);
    assert_eq!(mux.tab_count(), 1);
    assert_eq!(mux.resolve_pane_id(11), None);
    assert!(mux.remove_tab(0).is_none());
}

#[test]
fn spawn_in_a_domain_that_cannot_spawn_changes_nothing() {
    let mut ids = IdAllocator::new();
    let mut mux = registry(&mut ids);
    let mut domain_ids = IdAllocator::new();
    let local = LocalDomain::new("local", &mut domain_ids).unwrap();
    assert!(!local.spawnable());
    let err = spawn(&local, &mut mux, &mut ids, TerminalSize::default(), None, None, 100)
        .unwrap_err();
    assert_eq!(err, MuxError::Spawn(Box::new(MuxError::LocalSpawnPaneUnimplemented)));
    assert_eq!(err.message(), "spawn");
    assert_eq!(err.cause(), Some(&MuxError::LocalSpawnPaneUnimplemented));
    assert!(err.cause().unwrap().message().contains("1b.3"));
    assert_eq!(mux.tab_count(), 2);
    assert_eq!(ids.peek(), 2);
    let ssh = RemoteSshDomain::with_ssh_domain(
        &SshDomain { name: String::from("remote") },
        &mut domain_ids,
    )
    .unwrap();
    let err = spawn(&ssh, &mut mux, &mut ids, TerminalSize::default(), None, None, 100)
        .unwrap_err();
    assert_eq!(err, MuxError::Spawn(Box::new(MuxError::SshRemoved)));
    assert_eq!(err.cause().map(|c| c.message()), Some(String::from("ssh remote-mux removed in chaoszen; see slice 1b.1")));
    assert_eq!(mux.tab_count(), 2);
}

#[test]
fn split_of_a_missing_tab_is_refused() {
    let mut ids = IdAllocator::new();
    let mut mux = registry(&mut ids);
    let mut domain_ids = IdAllocator::new();
    let local = LocalDomain::new("local", &mut domain_ids).unwrap();
    let err = split_pane(&local, &mut mux, SplitSource::MovePane(20), 9, 10, request()).unwrap_err();
    assert_eq!(err, MuxError::InvalidTabId(9));
    assert_eq!(err.message(), "Invalid tab id 9");
    assert_eq!(mux.resolve_pane_id(20), Some((200, 1)));
}

#[test]
fn split_in_a_tab_without_geometry_is_refused_before_moving() {
    let mut ids = IdAllocator::new();
    let mut mux = registry(&mut ids);
    let mut domain_ids = IdAllocator::new();
    let local = LocalDomain::new("local", &mut domain_ids).unwrap();
    let err = split_pane(&local, &mut mux, SplitSource::MovePane(20), 0, 10, request()).unwrap_err();
    assert_eq!(err, MuxError::InvalidPaneId(10));
    assert_eq!(mux.resolve_pane_id(20), Some((200, 1)));
    let spawn_source = SplitSource::Spawn { command: None, command_dir: None };
    let err = split_pane(&local, &mut mux, spawn_source, 1, 20, request()).unwrap_err();
    assert_eq!(err, MuxError::InvalidPaneId(20));
    assert_eq!(mux.tab_count(), 2);
}
