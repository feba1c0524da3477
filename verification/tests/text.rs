use panium::text::{c_log_to_string, decimal_text, joined, log_buffer, same_text};

#[test]
fn logs_end_at_the_first_zero_byte() {
    assert_eq!(c_log_to_string(b"warning\0rest\0"), "warning");
    assert_eq!(c_log_to_string(b"\0rest"), "");
    assert_eq!(c_log_to_string("gr\u{fc}n \u{1f600}\0".as_bytes()), "gr\u{fc}n \u{1f600}");
}

#[test]
fn logs_without_an_end_are_empty() {
    assert_eq!(c_log_to_string(b"warning"), "");
    assert_eq!(c_log_to_string(b""), "");
}

#[test]
fn invalid_bytes_in_logs_are_replaced() {
    assert_eq!(c_log_to_string(b"a\xffb\0"), "a\u{fffd}b");
}

#[test]
fn log_buffers_have_at_least_one_byte() {
    assert_eq!(log_buffer(-4), [0]);
    assert_eq!(log_buffer(0), [0]);
    assert_eq!(log_buffer(1), [0]);
    assert_eq!(log_buffer(3), [0, 0, 0]);
    assert_eq!(c_log_to_string(&log_buffer(5)), "");
}

#[test]
fn numbers_are_written_in_decimal() {
    assert_eq!(decimal_text(0), "0");
    assert_eq!(decimal_text(10), "10");
    assert_eq!(decimal_text(1_234_567_890), "1234567890");
    assert_eq!(decimal_text(u32::MAX), "4294967295");
}

#[test]
fn texts_are_compared_and_joined() {
    assert!(same_text("gl33", "gl33"));
    assert!(!same_text("gl33", "gl3"));
    assert_eq!(joined("a: ", "b"), "a: b");
}
