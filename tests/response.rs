use rust_logic::Response;

#[test]
fn success_holds_flag_code_and_text() {
    let r = Response::success(201, "done");
    assert!(r.success);
    assert_eq!(r.response_code, 201);
    assert_eq!(r.message.as_deref(), Some("done"));
}

#[test]
fn error_holds_flag_code_and_text() {
    let r = Response::error(503, "down");
    assert!(!r.success);
    assert_eq!(r.response_code, 503);
    assert_eq!(r.message.as_deref(), Some("down"));
}

#[test]
fn second_release_is_a_detectable_no_op() {
    let mut r = Response::error(404, "missing");
    assert!(r.free_message());
    assert!(r.message.is_none());
    assert!(!r.free_message());
    assert!(r.message.is_none());
    assert!(!r.success);
    assert_eq!(r.response_code, 404);
}
