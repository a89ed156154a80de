use yact::logs::{append_log_line, limit_log_lines, merge_logs, parse_sse_logs, MAX_LOG_LINES};

fn numbered(prefix: &str, from: usize, to: usize) -> String {
    (from..to).map(|i| format!("{}{}", prefix, i)).collect::<Vec<_>>().join("\n")
}

fn sse(prefix: &str, from: usize, to: usize) -> String {
    (from..to).map(|i| format!("data: {}{}\n", prefix, i)).collect::<Vec<_>>().concat()
}

#[test]
fn parse_keeps_the_data_and_drops_the_framing() {
    assert_eq!(parse_sse_logs("event: ping\ndata: hello\nid: 5\ndata: world\n"), "hello\nworld");
}

#[test]
fn parse_of_nothing_is_nothing() {
    assert_eq!(parse_sse_logs(""), "");
    assert_eq!(parse_sse_logs("\n\n"), "");
    assert_eq!(parse_sse_logs("event: a\nid: 1\nretry: 3000\n"), "");
}

#[test]
fn parse_drops_retry_lines() {
    assert_eq!(parse_sse_logs("retry: 10\ndata: x"), "x");
}

#[test]
fn parse_passes_other_lines_through() {
    assert_eq!(parse_sse_logs("plain line\n: comment\n  indented\n"), "plain line\n: comment\n  indented");
}

#[test]
fn parse_strips_white_space_behind_the_data_prefix() {
    assert_eq!(parse_sse_logs("data:x\ndata:   y\ndata:\t\u{a0}z \n"), "x\ny\nz ");
}

#[test]
fn parse_drops_data_lines_that_carry_nothing() {
    assert_eq!(parse_sse_logs("data:\ndata:    \ndata: a\n\ndata: b"), "a\nb");
}

#[test]
fn parse_reads_prefixes_at_the_start_only() {
    assert_eq!(parse_sse_logs(" event: x\nEvent: y\nmy id: 3"), " event: x\nEvent: y\nmy id: 3");
}

#[test]
fn parse_takes_carriage_return_line_endings() {
    assert_eq!(parse_sse_logs("event: e\r\ndata: one\r\ndata: two\r\n"), "one\ntwo");
}

#[test]
fn parse_keeps_json_payloads_whole() {
    let raw = "data: {\"type\":\"info\",\"payload\":\"data: inner\"}\n";
    assert_eq!(parse_sse_logs(raw), "{\"type\":\"info\",\"payload\":\"data: inner\"}");
}

#[test]
fn limit_leaves_short_text_alone() {
    assert_eq!(limit_log_lines("a\nb\nc", 3), "a\nb\nc");
    assert_eq!(limit_log_lines("a\nb\nc\n", 3), "a\nb\nc\n");
    assert_eq!(limit_log_lines("a\r\nb\r\n", 5), "a\r\nb\r\n");
    assert_eq!(limit_log_lines("", 0), "");
}

#[test]
fn limit_keeps_the_last_lines() {
    assert_eq!(limit_log_lines("a\nb\nc", 2), "b\nc");
    assert_eq!(limit_log_lines("a\nb\nc\n", 2), "b\nc");
    assert_eq!(limit_log_lines("a\nb\nc", 1), "c");
    assert_eq!(limit_log_lines("a\nb\nc", 0), "");
    assert_eq!(limit_log_lines("a\r\nb\r\nc\r\n", 2), "b\nc");
}

#[test]
fn limit_at_the_ceiling() {
    let exact = numbered("l", 0, 1000);
    assert_eq!(limit_log_lines(&exact, MAX_LOG_LINES), exact);
    let over = numbered("l", 0, 1001);
    assert_eq!(limit_log_lines(&over, MAX_LOG_LINES), numbered("l", 1, 1001));
}

#[test]
fn merge_without_a_buffer_is_the_chunk() {
    assert_eq!(merge_logs(&None, "data: a\ndata: b\n"), "a\nb");
}

#[test]
fn merge_appends_behind_a_line_feed() {
    assert_eq!(merge_logs(&Some("x\ny".to_string()), "event: e\ndata: a\n"), "x\ny\na");
}

#[test]
fn merge_of_an_empty_chunk_ends_the_buffer_with_a_line_feed() {
    assert_eq!(merge_logs(&Some("x".to_string()), "id: 1\n"), "x\n");
    assert_eq!(merge_logs(&None, "id: 1\n"), "");
}

#[test]
fn merge_of_a_full_buffer_and_fifty_lines_keeps_the_newest_thousand() {
    let old = numbered("old", 0, 1000);
    let merged = merge_logs(&Some(old), &sse("new", 0, 50));
    let lines: Vec<&str> = merged.lines().collect();
    assert_eq!(lines.len(), 1000);
    let expected = format!("{}\n{}", numbered("old", 50, 1000), numbered("new", 0, 50));
    assert_eq!(merged, expected);
    assert_eq!(lines[0], "old50");
    assert_eq!(lines[949], "old999");
    assert_eq!(lines[950], "new0");
    assert_eq!(lines[999], "new49");
}

#[test]
fn merge_bounds_an_oversized_payload() {
    let merged = merge_logs(&None, &sse("n", 0, 2500));
    assert_eq!(merged, numbered("n", 1500, 2500));
    let again = merge_logs(&Some("kept".to_string()), &sse("n", 0, 2500));
    assert_eq!(again, numbered("n", 1500, 2500));
    assert_eq!(again.lines().count(), MAX_LOG_LINES);
}

#[test]
fn merge_never_passes_the_ceiling_over_many_loads() {
    let mut buffer: Option<String> = None;
    for round in 0..7 {
        buffer = Some(merge_logs(&buffer, &sse(&format!("r{}-", round), 0, 300)));
        assert!(buffer.as_ref().unwrap().lines().count() <= MAX_LOG_LINES);
    }
    let text = buffer.unwrap();
    let lines: Vec<&str> = text.lines().collect();
    assert_eq!(lines.len(), 1000);
    assert_eq!(lines[0], "r3-200");
    assert_eq!(lines[999], "r6-299");
}

#[test]
fn append_puts_the_line_behind_a_line_feed() {
    assert_eq!(append_log_line(&Some("a\nb".to_string()), "oops"), "a\nb\noops");
    assert_eq!(append_log_line(&Some(String::new()), "oops"), "\noops");
    assert_eq!(append_log_line(&None, "oops"), "oops");
}

#[test]
fn append_cuts_nothing_off() {
    let full = numbered("l", 0, 1000);
    let appended = append_log_line(&Some(full.clone()), "late");
    assert_eq!(appended, format!("{}\nlate", full));
    assert_eq!(appended.lines().count(), 1001);
}
