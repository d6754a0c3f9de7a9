use chatpack_convert::message::{Message, Timestamp};
use chatpack_convert::pipeline::render_messages;
use chatpack_convert::selector::Format;

fn msg(sender: &str, content: &str, id: u64) -> Message {
    Message {
        sender: sender.to_string(),
        content: content.to_string(),
        timestamp: Some(Timestamp { secs: 1704067200 + id as i64, nanos: 0 }),
        id: Some(id),
        reply_to: Some(id + 100),
    }
}

fn lines(messages: Vec<Message>) -> Vec<String> {
    let out = render_messages(messages, Format::Jsonl, true, true).unwrap();
    if out.is_empty() {
        return vec![];
    }
    out.split('\n').map(|l| l.to_string()).collect()
}

#[test]
fn merge_empty_is_empty() {
    assert!(lines(vec![]).is_empty());
}

#[test]
fn merge_keeps_first_metadata() {
    let out = lines(vec![msg("A", "x", 1), msg("A", "y", 2), msg("A", "z", 3)]);
    assert_eq!(
        out,
        vec!["{\"timestamp\":\"2024-01-01 00:00:01 UTC\",\"sender\":\"A\",\"content\":\"x\\ny\\nz\",\"reply_to\":\"101\"}"]
    );
}

#[test]
fn merge_count_equals_runs() {
    let input = vec![
        msg("A", "1", 1),
        msg("A", "2", 2),
        msg("B", "3", 3),
        msg("A", "4", 4),
        msg("C", "5", 5),
        msg("C", "6", 6),
    ];
    let out = lines(input);
    assert_eq!(out.len(), 4);
    assert!(out[0].contains("\"sender\":\"A\",\"content\":\"1\\n2\""));
    assert!(out[1].contains("\"sender\":\"B\",\"content\":\"3\""));
    assert!(out[2].contains("\"sender\":\"A\",\"content\":\"4\""));
    assert!(out[3].contains("\"sender\":\"C\",\"content\":\"5\\n6\""));
}

#[test]
fn merge_single_runs_unchanged() {
    let out = lines(vec![msg("A", "1", 1), msg("B", "2", 2), msg("A", "3", 3)]);
    assert_eq!(
        out[1],
        "{\"timestamp\":\"2024-01-01 00:00:02 UTC\",\"sender\":\"B\",\"content\":\"2\",\"reply_to\":\"102\"}"
    );
    assert_eq!(out.len(), 3);
}

#[test]
fn merge_twice_same_as_once() {
    let input = vec![msg("A", "1", 1), msg("A", "2", 2), msg("B", "3", 3), msg("B", "", 4)];
    let once = lines(input);
    let again = vec![
        Message {
            sender: "A".to_string(),
            content: "1\n2".to_string(),
            timestamp: Some(Timestamp { secs: 1704067201, nanos: 0 }),
            id: Some(1),
            reply_to: Some(101),
        },
        Message {
            sender: "B".to_string(),
            content: "3\n".to_string(),
            timestamp: Some(Timestamp { secs: 1704067203, nanos: 0 }),
            id: Some(3),
            reply_to: Some(103),
        },
    ];
    assert_eq!(lines(again), once);
}

#[test]
fn merge_never_crosses_other_sender() {
    let out = lines(vec![msg("A", "1", 1), msg("B", "2", 2), msg("A", "3", 3)]);
    assert_eq!(out.len(), 3);
}

#[test]
fn timestamp_with_fraction_renders() {
    let m = Message {
        sender: "A".to_string(),
        content: "x".to_string(),
        timestamp: Some(Timestamp { secs: 1705314600, nanos: 500_000_000 }),
        id: None,
        reply_to: None,
    };
    let out = render_messages(vec![m], Format::Csv, true, false).unwrap();
    assert_eq!(out, "timestamp,sender,content\n2024-01-15 10:30:00.500 UTC,A,x\n");
}
