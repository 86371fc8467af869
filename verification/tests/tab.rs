use mux::error::MuxError;
use mux::ids::{alloc_tab_id, IdAllocator};
use mux::tab::{PaneSize, SplitDirection, SplitRequest, SplitSize, Tab};
use mux::terminal::TerminalSize;

#[test]
fn new_tab_takes_the_next_tab_id() {
    let mut ids = IdAllocator::new();
    let first: Tab<u32> = Tab::new(&mut ids, 17);
    let orphan: Tab<u32> = Tab::new_orphan(&mut ids);
    assert_eq!(first.tab_id(), 0);
    assert_eq!(first.zellij_tab_id(), 17);
    assert_eq!(orphan.tab_id(), 1);
    assert_eq!(orphan.zellij_tab_id(), 0);
    assert_eq!(alloc_tab_id(&mut ids), 2);
    assert_eq!(first.count_panes(), 0);
    assert_eq!(first.get_title(), "");
    assert_eq!(first.get_active_pane(), None);
}

#[test]
fn first_assigned_pane_becomes_active() {
    let mut ids = IdAllocator::new();
    let mut tab: Tab<&str> = Tab::new(&mut ids, 1);
    tab.assign_pane(10, "ten");
    tab.assign_pane(11, "eleven");
    assert_eq!(tab.count_panes(), 2);
    assert_eq!(tab.get_active_pane(), Some(&"ten"));
    tab.set_active_pane(11);
    assert_eq!(tab.get_active_pane(), Some(&"eleven"));
    tab.set_active_pane(99);
    assert_eq!(tab.get_active_pane(), None);
}

#[test]
fn remove_pane_takes_the_first_match_and_keeps_the_active_id() {
    let mut ids = IdAllocator::new();
    let mut tab: Tab<&str> = Tab::new(&mut ids, 1);
    tab.assign_pane(1, "a");
    tab.assign_pane(2, "b");
    tab.assign_pane(2, "c");
    assert_eq!(tab.position_of(2), Some(1));
    assert_eq!(tab.remove_pane(2), Some("b"));
    assert_eq!(tab.remove_pane(2), Some("c"));
    assert_eq!(tab.remove_pane(2), None);
    assert_eq!(tab.remove_pane(1), Some("a"));
    assert_eq!(tab.count_panes(), 0);
    assert_eq!(tab.get_active_pane(), None);
}

#[test]
fn remove_after_assign_restores_the_panes() {
    let mut ids = IdAllocator::new();
    let mut tab: Tab<&str> = Tab::new(&mut ids, 1);
    tab.assign_pane(1, "a");
    tab.assign_pane(5, "e");
    assert_eq!(tab.remove_pane(5), Some("e"));
    assert_eq!(tab.count_panes(), 1);
    assert_eq!(tab.position_of(1), Some(0));
}

#[test]
fn title_round_trips() {
    let mut ids = IdAllocator::new();
    let mut tab: Tab<()> = Tab::new(&mut ids, 1);
    tab.set_title("shell");
    assert_eq!(tab.get_title(), "shell");
    tab.set_title("");
    assert_eq!(tab.get_title(), "");
}

#[test]
fn tab_without_geometry() {
    let mut ids = IdAllocator::new();
    let mut tab: Tab<&str> = Tab::new(&mut ids, 1);
    tab.assign_pane(1, "a");
    assert!(!tab.is_dead());
    assert!(!tab.prune_dead_panes());
    assert!(tab.can_close_without_prompting("user"));
    assert!(tab.iter_panes_ignoring_zoom().is_empty());
    let request = SplitRequest {
        direction: SplitDirection::Vertical,
        target_is_second: false,
        size: SplitSize::Cells(3),
        top_level: true,
    };
    assert!(tab.compute_split_size(0, request).is_none());
    let err = tab.split_and_insert(0, request, "b").unwrap_err();
    assert_eq!(err, MuxError::SplitAndInsertUnimplemented);
    assert_eq!(err.message(), "Tab::split_and_insert not implemented in Slice 1b.3.a; see 1b.3.c");
    assert_eq!(tab.count_panes(), 1);
    tab.kill_panes_in_domain(0);
    assert_eq!(tab.count_panes(), 1);
    assert_eq!(
        tab.get_size(),
        TerminalSize { rows: 24, cols: 80, pixel_width: 0, pixel_height: 0, dpi: 0 }
    );
}

#[test]
fn split_defaults() {
    assert_eq!(SplitSize::default(), SplitSize::Percent(50));
    let size = PaneSize::default();
    assert_eq!((size.rows, size.cols, size.pixel_width, size.pixel_height), (0, 0, 0, 0));
}
