use rust_logic::{
    finish_process, free_response, logic_processor_free, logic_processor_new,
    logic_processor_process, logic_processor_queue, LogicProcessor, Network, Response, WorkerAction,
};

fn taken(a: WorkerAction) -> Option<(String, usize, usize, bool)> {
    match a {
        WorkerAction::Deliver(o) => Some((o.content, o.id, o.count, true)),
        WorkerAction::Discard(o) => Some((o.content, o.id, o.count, false)),
        _ => None,
    }
}

#[test]
fn process_without_delivery_gives_substitute_success() {
    let mut p = LogicProcessor::new(None);
    let out = p.begin_process("hello");
    let r = finish_process(&out, None);
    assert!(r.success);
    assert_eq!(r.response_code, 200);
    let text = r.message.clone().unwrap();
    assert!(text.contains("hello"));
    assert_eq!(text, "Processed without delivery: hello (count: 1)");
    assert_eq!(out.count, 1);
    assert_eq!(p.messages_processed(), 1);
}

#[test]
fn process_delivery_outcomes_become_results() {
    let mut p = LogicProcessor::new(Some(Network { handle: 3 }));
    let out = p.begin_process("x");
    let r = finish_process(&out, Some(Ok(Response::success(202, "sent"))));
    assert!(r.success);
    assert_eq!(r.response_code, 202);
    assert_eq!(r.message.as_deref(), Some("sent"));
    let r = finish_process(&out, Some(Err("timeout".to_string())));
    assert!(!r.success);
    assert_eq!(r.response_code, 500);
    assert_eq!(r.message.as_deref(), Some("timeout"));
}

#[test]
fn queued_messages_come_out_in_order() {
    let mut p = LogicProcessor::new(Some(Network { handle: 3 }));
    assert_eq!(p.queue_message("a"), Some(1));
    assert_eq!(p.queue_message("b"), Some(2));
    assert_eq!(p.queue_message("c"), Some(3));
    assert_eq!(p.queue_len(), 3);
    assert_eq!(taken(p.worker_step()), Some(("a".to_string(), 1, 1, true)));
    assert_eq!(taken(p.worker_step()), Some(("b".to_string(), 2, 2, true)));
    assert_eq!(taken(p.worker_step()), Some(("c".to_string(), 3, 3, true)));
    assert!(matches!(p.worker_step(), WorkerAction::Idle));
    assert_eq!(p.messages_processed(), 3);
}

#[test]
fn sequential_producers_are_seen_in_order() {
    let mut p = LogicProcessor::new(Some(Network { handle: 3 }));
    p.queue_message("a");
    p.queue_message("b");
    let first = taken(p.worker_step()).unwrap();
    let second = taken(p.worker_step()).unwrap();
    assert_eq!(first.0, "a");
    assert_eq!(second.0, "b");
}

#[test]
fn unbound_worker_discards_messages() {
    let mut p = LogicProcessor::new(None);
    p.queue_message("lost");
    assert_eq!(taken(p.worker_step()), Some(("lost".to_string(), 1, 1, false)));
    assert_eq!(p.queue_len(), 0);
}

#[test]
fn empty_queue_gives_idle() {
    let mut p = LogicProcessor::new(None);
    assert!(matches!(p.worker_step(), WorkerAction::Idle));
    assert_eq!(p.messages_processed(), 0);
}

#[test]
fn worker_stops_after_shutdown() {
    let mut p = LogicProcessor::new(Some(Network { handle: 3 }));
    p.queue_message("late");
    p.shutdown();
    assert!(!p.is_running());
    assert!(matches!(p.worker_step(), WorkerAction::Stop));
    assert!(matches!(p.worker_step(), WorkerAction::Stop));
    assert_eq!(p.queue_len(), 1);
    assert_eq!(p.messages_processed(), 0);
}

#[test]
fn null_processor_gives_bad_input() {
    let r = logic_processor_process(None, Some("hi".as_bytes())).err().unwrap();
    assert!(!r.success);
    assert_eq!(r.response_code, 400);
    assert_eq!(r.message.as_deref(), Some("Invalid pointer"));
}

#[test]
fn null_message_gives_bad_input() {
    let mut p = logic_processor_new(0);
    let r = logic_processor_process(Some(&mut p), None).err().unwrap();
    assert!(!r.success);
    assert_eq!(r.response_code, 400);
    assert_eq!(p.messages_processed(), 0);
}

#[test]
fn invalid_utf8_gives_bad_input() {
    let mut p = logic_processor_new(0);
    let bytes: Vec<u8> = vec![0x66, 0xff, 0x6f];
    let r = logic_processor_process(Some(&mut p), Some(&bytes)).err().unwrap();
    assert!(!r.success);
    assert_eq!(r.response_code, 400);
    assert_eq!(r.message.as_deref(), Some("Invalid UTF-8 string"));
    assert_eq!(p.messages_processed(), 0);
}

#[test]
fn valid_utf8_is_taken_up() {
    let mut p = logic_processor_new(0);
    let bytes = "h\u{e9}llo".as_bytes();
    let out = logic_processor_process(Some(&mut p), Some(bytes)).ok().unwrap();
    assert_eq!(out.content, "h\u{e9}llo");
    assert_eq!(out.count, 1);
    assert_eq!(out.id, 0);
    assert_eq!(p.messages_processed(), 1);
}

#[test]
fn new_binds_nonzero_handle_only() {
    assert_eq!(logic_processor_new(0).network_handle(), None);
    assert_eq!(logic_processor_new(77).network_handle(), Some(77));
    assert!(logic_processor_new(77).is_running());
}

#[test]
fn free_stops_worker_and_null_is_no_op() {
    let mut p = logic_processor_new(0);
    logic_processor_free(Some(&mut p));
    assert!(!p.is_running());
    logic_processor_free(None);
}

#[test]
fn free_response_releases_once() {
    let mut r = Response::success(200, "x");
    assert!(free_response(Some(&mut r)));
    assert!(!free_response(Some(&mut r)));
    assert!(!free_response(None));
    assert!(r.message.is_none());
}

#[test]
fn boundary_queue_validates_and_assigns_ids() {
    let mut p = logic_processor_new(5);
    assert_eq!(logic_processor_queue(None, Some("a".as_bytes())), None);
    assert_eq!(logic_processor_queue(Some(&mut p), None), None);
    let bad: Vec<u8> = vec![0xc3, 0x28];
    assert_eq!(logic_processor_queue(Some(&mut p), Some(&bad)), None);
    assert_eq!(logic_processor_queue(Some(&mut p), Some("a".as_bytes())), Some(1));
    assert_eq!(logic_processor_queue(Some(&mut p), Some("b".as_bytes())), Some(2));
    assert_eq!(p.queue_len(), 2);
    assert_eq!(taken(p.worker_step()), Some(("a".to_string(), 1, 1, true)));
}

#[test]
fn substitute_text_reports_later_counts() {
    let mut p = LogicProcessor::new(None);
    p.queue_message("q");
    p.worker_step();
    let out = p.begin_process("second");
    let r = finish_process(&out, None);
    assert_eq!(r.message.as_deref(), Some("Processed without delivery: second (count: 2)"));
}
