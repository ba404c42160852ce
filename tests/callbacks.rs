use rust_logic::CallbackTable;

#[test]
fn ids_start_at_one_and_grow() {
    let mut t: CallbackTable<&str> = CallbackTable::new();
    assert_eq!(t.register("a"), Ok(1));
    assert_eq!(t.register("b"), Ok(2));
    assert_eq!(t.pending_count(), 2);
}

#[test]
fn completing_second_leaves_first_pending() {
    let mut t: CallbackTable<&str> = CallbackTable::new();
    let first = t.register("first").unwrap();
    let second = t.register("second").unwrap();
    assert_eq!(t.complete(second), Some("second"));
    assert!(t.is_pending(first));
    assert!(!t.is_pending(second));
    assert_eq!(t.pending_count(), 1);
    assert_eq!(t.complete(first), Some("first"));
    assert_eq!(t.pending_count(), 0);
}

#[test]
fn completion_happens_at_most_once() {
    let mut t: CallbackTable<u32> = CallbackTable::new();
    let id = t.register(7).unwrap();
    assert_eq!(t.complete(id), Some(7));
    assert_eq!(t.complete(id), None);
    assert_eq!(t.pending_count(), 0);
}

#[test]
fn completing_unknown_id_is_a_no_op() {
    let mut t: CallbackTable<u32> = CallbackTable::new();
    let id = t.register(1).unwrap();
    assert_eq!(t.complete(0), None);
    assert_eq!(t.complete(99), None);
    assert!(t.is_pending(id));
    assert_eq!(t.pending_count(), 1);
}

#[test]
fn ids_are_not_reused_after_completion() {
    let mut t: CallbackTable<u32> = CallbackTable::new();
    let a = t.register(1).unwrap();
    t.complete(a);
    let b = t.register(2).unwrap();
    assert!(b > a);
}

#[test]
fn continuation_runs_once_with_the_result() {
    let mut t: CallbackTable<Box<dyn FnOnce(i32) -> i32>> = CallbackTable::new();
    let id = t.register(Box::new(|x| x * 2)).ok().unwrap();
    let c = t.complete(id).unwrap();
    assert_eq!(c(21), 42);
    assert!(t.complete(id).is_none());
}
