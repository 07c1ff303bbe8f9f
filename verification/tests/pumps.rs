use plugin_ipc::ipc::pending::PendingTable;
use plugin_ipc::ipc::pumps::{
    classify_stderr, stderr_report, writer_action, writer_continues, Severity, WriterAction,
    WriterMessage,
};
use plugin_ipc::text::{frame_line, i32_to_string, is_blank, join2, join3, u64_to_string};

#[test]
fn writer_frames_requests_and_stops_on_signal() {
    match writer_action(Some(WriterMessage::Request("{\"a\":1}".to_string()))) {
        WriterAction::Write(text) => assert_eq!(text, "{\"a\":1}\n"),
        other => panic!("unexpected: {:?}", other),
    }
    assert!(matches!(writer_action(Some(WriterMessage::Shutdown)), WriterAction::Stop));
    assert!(matches!(writer_action(None), WriterAction::Stop));
    assert!(writer_continues(true, true));
    assert!(!writer_continues(false, true));
    assert!(!writer_continues(true, false));
}

#[test]
fn framed_line_ends_in_exactly_one_line_feed() {
    let line = frame_line("{\"jsonrpc\":\"2.0\"}");
    assert!(line.ends_with('\n'));
    assert_eq!(line.matches('\n').count(), 1);
    assert_eq!(frame_line(""), "\n");
}

#[test]
fn stderr_lines_are_classified_by_marker() {
    assert_eq!(classify_stderr("2024 [ERROR] boom"), Severity::Error);
    assert_eq!(classify_stderr("WARNING: careful, ERROR ahead"), Severity::Error);
    assert_eq!(classify_stderr("WARNING: careful"), Severity::Warning);
    assert_eq!(classify_stderr("some DEBUG WARNING"), Severity::Warning);
    assert_eq!(classify_stderr("DEBUG: x"), Severity::Debug);
    assert_eq!(classify_stderr("plain text"), Severity::Info);
    assert_eq!(classify_stderr("error in lower case"), Severity::Info);
    assert_eq!(classify_stderr(""), Severity::Info);
    assert_eq!(stderr_report("x"), "[Python] x");
}

#[test]
fn decimal_rendering() {
    assert_eq!(u64_to_string(0), "0");
    assert_eq!(u64_to_string(9), "9");
    assert_eq!(u64_to_string(10), "10");
    assert_eq!(u64_to_string(1234567890), "1234567890");
    assert_eq!(u64_to_string(u64::MAX), "18446744073709551615");
    assert_eq!(i32_to_string(0), "0");
    assert_eq!(i32_to_string(-1), "-1");
    assert_eq!(i32_to_string(i32::MAX), "2147483647");
    assert_eq!(i32_to_string(i32::MIN), "-2147483648");
    assert_eq!(join2("a", "b"), "ab");
    assert_eq!(join3("a", "", "c"), "ac");
}

#[test]
fn blank_lines() {
    assert!(is_blank(""));
    assert!(is_blank(" \t\r"));
    assert!(!is_blank(" x "));
}

#[test]
fn pending_table_keeps_each_sink_under_its_id() {
    let mut table: PendingTable<&'static str> = PendingTable::new();
    assert_eq!(table.len(), 0);
    assert_eq!(table.insert(1, "a"), None);
    assert_eq!(table.insert(2, "b"), None);
    assert_eq!(table.insert(3, "c"), None);
    assert_eq!(table.insert(3, "c2"), Some("c"));
    assert_eq!(table.len(), 3);
    assert!(table.contains(2));
    assert!(!table.contains(4));
    assert_eq!(table.remove(2), Some("b"));
    assert_eq!(table.remove(2), None);
    assert!(table.contains(1));
    let mut entries = table.drain();
    entries.sort();
    assert_eq!(entries, vec![(1, "a"), (3, "c2")]);
    assert_eq!(table.len(), 0);
    assert!(table.drain().is_empty());
}
