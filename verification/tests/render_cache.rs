use mux::render_cache::RenderCache;

#[test]
fn get_after_upsert_returns_the_state() {
    let mut cache: RenderCache<String> = RenderCache::new();
    assert!(cache.get(1).is_none());
    cache.upsert(1, String::from("first"));
    cache.upsert(2, String::from("second"));
    assert_eq!(cache.get(1).map(|s| s.as_str()), Some("first"));
    cache.upsert(1, String::from("again"));
    assert_eq!(cache.get(1).map(|s| s.as_str()), Some("again"));
    assert_eq!(cache.get(2).map(|s| s.as_str()), Some("second"));
}

#[test]
fn remove_forgets_only_that_pane() {
    let mut cache: RenderCache<u64> = RenderCache::default();
    cache.upsert(1, 10);
    cache.upsert(2, 20);
    cache.remove(1);
    assert_eq!(cache.get(1), None);
    assert_eq!(cache.get(2), Some(&20));
    cache.remove(7);
    assert_eq!(cache.get(2), Some(&20));
}
