use mcp_bridge::correlation::CorrelationTable;
use mcp_bridge::eval::prepare_eval;

#[test]
fn register_then_resolve_is_the_single_terminal() {
    let mut t: CorrelationTable<u32> = CorrelationTable::new();
    assert_eq!(t.register("abc".to_string(), 7, 100), Ok(()));
    assert!(t.contains("abc"));
    assert_eq!(t.pending_count(), 1);
    // The completion wins: it takes the waiter and clears the entry.
    assert_eq!(t.resolve("abc"), Some(7));
    assert!(!t.contains("abc"));
    assert_eq!(t.pending_count(), 0);
    // The timeout that follows finds nothing and changes nothing.
    assert_eq!(t.expire("abc"), None);
    assert_eq!(t.pending_count(), 0);
}

#[test]
fn register_then_expire_then_late_resolve_is_ignored() {
    let mut t: CorrelationTable<u32> = CorrelationTable::new();
    assert_eq!(t.register("abc".to_string(), 9, 5), Ok(()));
    // The timeout wins: the caller is told the wait ran out.
    assert_eq!(t.expire("abc"), Some(9));
    assert!(!t.contains("abc"));
    // A late callback is silently ignored.
    assert_eq!(t.resolve("abc"), None);
    assert!(!t.contains("abc"));
    assert_eq!(t.pending_count(), 0);
}

#[test]
fn exactly_one_removal_observes_the_waiter() {
    // Both serializations of the race: the first removal takes the
    // waiter, the second takes nothing.
    for resolve_first in [true, false] {
        let mut t: CorrelationTable<&'static str> = CorrelationTable::new();
        assert_eq!(t.register("id".to_string(), "waiter", 0), Ok(()));
        let first = if resolve_first { t.resolve("id") } else { t.expire("id") };
        let second = if resolve_first { t.expire("id") } else { t.resolve("id") };
        assert_eq!(first, Some("waiter"));
        assert_eq!(second, None);
        assert!(!t.contains("id"));
    }
}

#[test]
fn duplicate_registration_hands_the_waiter_back() {
    let mut t: CorrelationTable<u32> = CorrelationTable::new();
    assert_eq!(t.register("x".to_string(), 1, 0), Ok(()));
    assert_eq!(t.register("x".to_string(), 2, 1), Err(2));
    assert_eq!(t.pending_count(), 1);
    assert_eq!(t.resolve("x"), Some(1));
}

#[test]
fn independent_entries_do_not_disturb_each_other() {
    let mut t: CorrelationTable<u32> = CorrelationTable::new();
    assert_eq!(t.register("a".to_string(), 1, 0), Ok(()));
    assert_eq!(t.register("b".to_string(), 2, 0), Ok(()));
    assert_eq!(t.register("c".to_string(), 3, 0), Ok(()));
    assert_eq!(t.resolve("b"), Some(2));
    assert!(t.contains("a"));
    assert!(t.contains("c"));
    assert_eq!(t.pending_count(), 2);
    assert_eq!(t.expire("a"), Some(1));
    assert_eq!(t.resolve("c"), Some(3));
    assert_eq!(t.pending_count(), 0);
}

#[test]
fn prepare_eval_files_a_fresh_id_and_builds_the_call() {
    let mut t: CorrelationTable<u32> = CorrelationTable::new();
    let (id, js) = prepare_eval(&mut t, 11, 1000, "doWork()").expect("fresh id");
    assert_eq!(id.chars().count(), 36);
    assert!(t.contains(&id));
    assert_eq!(js, format!("window.__MCP_EVAL__('{id}', 'doWork()')"));
    assert_eq!(t.resolve(&id), Some(11));
    assert_eq!(t.pending_count(), 0);
}

#[test]
fn prepared_ids_differ_between_handoffs() {
    let mut t: CorrelationTable<u32> = CorrelationTable::new();
    let (a, _) = prepare_eval(&mut t, 1, 0, "x").expect("fresh id");
    let (b, _) = prepare_eval(&mut t, 2, 0, "x").expect("fresh id");
    assert_ne!(a, b);
    assert_eq!(t.pending_count(), 2);
}
