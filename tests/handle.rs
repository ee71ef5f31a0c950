use blockless_drivers::handle::HandleMap;

#[test]
fn test_handle_map() {
    let mut handles: HandleMap<String> = HandleMap::default();

    // Insert instances
    let h1 = handles.insert("test1".to_string());
    let h2 = handles.insert("test2".to_string());

    // Access instances with read-only function
    handles.with_instance(h1, |s| {
        assert_eq!(s, "test1");
    });

    handles.with_instance(h2, |s| {
        assert_eq!(s, "test2");
    });

    // Modify instance
    handles.with_instance_mut(h1, |_s| ("modified".to_string(), ()));

    // Verify modification
    handles.with_instance(h1, |s| {
        assert_eq!(s, "modified");
    });

    // Remove instance
    let removed = handles.remove(h1).unwrap();
    assert_eq!(removed, "modified");
    assert!(!handles.contains(h1));
}

#[test]
fn handles_start_at_one_and_increase() {
    let mut handles: HandleMap<u8> = HandleMap::new();
    let a = handles.insert(1);
    let b = handles.insert(2);
    let c = handles.insert(3);
    assert_eq!(a, 1);
    assert!(a < b && b < c);
    assert_eq!(handles.generate_handle(), 4);
    assert_eq!(handles.insert(4), 5);
}

#[test]
fn removed_handle_is_absent_and_never_reissued() {
    let mut handles: HandleMap<&str> = HandleMap::new();
    let h = handles.insert("a");
    assert_eq!(handles.remove(h), Some("a"));
    assert!(handles.get(h).is_none());
    assert!(handles.with_instance(h, |s| s.len()).is_none());
    assert_eq!(handles.remove(h), None);
    for _ in 0..10 {
        assert_ne!(handles.insert("b"), h);
    }
    assert!(handles.get(h).is_none());
}

#[test]
fn mutation_is_seen_by_later_read() {
    let mut handles: HandleMap<Vec<u32>> = HandleMap::new();
    let h = handles.insert(vec![1]);
    let r = handles.with_instance_mut(h, |mut v| {
        v.push(2);
        (v, 7)
    });
    assert_eq!(r, Some(7));
    assert_eq!(handles.with_instance(h, |v| v.clone()), Some(vec![1, 2]));
    assert_eq!(handles.get(h), Some(&vec![1, 2]));
}

#[test]
fn absent_handle_skips_closures() {
    let mut handles: HandleMap<u32> = HandleMap::new();
    assert!(handles.with_instance(0, |_| panic!("not run")).is_none());
    assert!(handles.with_instance_mut(3, |_| -> (u32, ()) { panic!("not run") }).is_none());
    assert!(!handles.contains(0));
    assert!(handles.has_capacity());
}
