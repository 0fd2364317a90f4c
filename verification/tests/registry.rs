use envoy_locality::registry::PendingRequests;

#[test]
fn take_gives_back_what_was_registered() {
    let mut p: PendingRequests<u32> = PendingRequests::new();
    assert!(p.register("a".to_string(), 1).is_ok());
    assert!(p.register("b".to_string(), 2).is_ok());
    assert!(p.contains(&"a".to_string()));
    assert_eq!(p.take(&"a".to_string()), Some(1));
    assert!(!p.contains(&"a".to_string()));
    assert_eq!(p.take(&"a".to_string()), None);
    assert_eq!(p.take(&"b".to_string()), Some(2));
}

#[test]
fn a_pending_id_is_refused() {
    let mut p: PendingRequests<&str> = PendingRequests::new();
    assert!(p.register("x".to_string(), "first").is_ok());
    assert_eq!(p.register("x".to_string(), "second"), Err("second"));
    assert_eq!(p.take(&"x".to_string()), Some("first"));
    assert!(p.register("x".to_string(), "third").is_ok());
    assert_eq!(p.take(&"x".to_string()), Some("third"));
}

#[test]
fn unknown_ids_are_not_found() {
    let mut p: PendingRequests<u8> = PendingRequests::new();
    assert!(!p.contains(&"nope".to_string()));
    assert_eq!(p.take(&"nope".to_string()), None);
    assert!(p.register("".to_string(), 9).is_ok());
    assert_eq!(p.take(&"".to_string()), Some(9));
}

#[test]
fn other_entries_survive_removal() {
    let mut p: PendingRequests<u32> = PendingRequests::new();
    for i in 0..10u32 {
        assert!(p.register(format!("r{}", i), i).is_ok());
    }
    assert_eq!(p.take(&"r4".to_string()), Some(4));
    for i in 0..10u32 {
        if i != 4 {
            assert_eq!(p.take(&format!("r{}", i)), Some(i));
        }
    }
}
