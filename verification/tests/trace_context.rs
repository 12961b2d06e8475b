use aivyx_server::middleware::trace_context::{generate_traceparent, parse_traceparent};

#[test]
fn parse_valid_traceparent() {
    let tp = "00-4bf92f3577b34da6a3ce929d0e0e4736-00f067aa0ba902b7-01";
    let (trace_id, parent_id, flags) = parse_traceparent(tp).unwrap();
    assert_eq!(trace_id, "4bf92f3577b34da6a3ce929d0e0e4736");
    assert_eq!(parent_id, "00f067aa0ba902b7");
    assert_eq!(flags, "01");
}

#[test]
fn parse_invalid_traceparent_wrong_version() {
    assert!(parse_traceparent("01-abc-def-00").is_none());
}

#[test]
fn parse_invalid_traceparent_wrong_length() {
    assert!(parse_traceparent("00-short-short-00").is_none());
}

#[test]
fn parse_invalid_traceparent_non_hex() {
    let tp = "00-zzzzzzzzzzzzzzzzzzzzzzzzzzzzzzzz-00f067aa0ba902b7-01";
    assert!(parse_traceparent(tp).is_none());
}

#[test]
fn generate_traceparent_is_valid() {
    let tp = generate_traceparent();
    assert!(parse_traceparent(&tp).is_some());
    assert!(tp.starts_with("00-"));
}

#[test]
fn generate_traceparent_uniqueness() {
    let tp1 = generate_traceparent();
    let tp2 = generate_traceparent();
    assert_ne!(tp1, tp2);
}
