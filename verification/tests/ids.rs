use mux::ids::{alloc_domain_id, alloc_tab_id, IdAllocator};

#[test]
fn ids_count_up_from_zero() {
    let mut ids = IdAllocator::new();
    assert_eq!(alloc_domain_id(&mut ids), 0);
    assert_eq!(alloc_domain_id(&mut ids), 1);
    assert_eq!(alloc_tab_id(&mut ids), 2);
    assert_eq!(ids.peek(), 3);
}

#[test]
fn ids_wrap_around_past_the_maximum() {
    let mut ids = IdAllocator::starting_at(usize::MAX);
    assert_eq!(ids.allocate(), usize::MAX);
    assert_eq!(ids.allocate(), 0);
    assert_eq!(ids.peek(), 1);
}

#[test]
fn distinct_ids_before_wrapping() {
    let mut ids = IdAllocator::starting_at(100);
    let got: Vec<usize> = (0..5).map(|_| ids.allocate()).collect();
    assert_eq!(got, vec![100, 101, 102, 103, 104]);
}
