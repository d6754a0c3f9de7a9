use chatpack_convert::json::{to_json, to_json_object, to_jsonl};
use chatpack_convert::message::{Message, Timestamp};
use chatpack_convert::output::{to_csv, OutputMessage};
use chatpack_convert::pipeline::format_output;
use chatpack_convert::selector::{format_from_lowercase, parse_format, parse_platform, platform_from_lowercase, Format, Platform};

fn full() -> Message {
    Message {
        sender: "Ann".to_string(),
        content: "a, \"quoted\" word".to_string(),
        timestamp: Some(Timestamp { secs: 1705314600, nanos: 0 }),
        id: Some(7),
        reply_to: Some(12345),
    }
}

#[test]
fn from_message_follows_options() {
    let m = full();
    let o = OutputMessage::from_message(&m, true, true);
    assert_eq!(o.timestamp.as_deref(), Some("2024-01-15 10:30:00 UTC"));
    assert_eq!(o.reply_to.as_deref(), Some("12345"));
    let o = OutputMessage::from_message(&m, false, false);
    assert!(o.timestamp.is_none() && o.reply_to.is_none());
    assert_eq!(o.sender, "Ann");
}

#[test]
fn csv_quotes_special_fields() {
    let o = OutputMessage::from_message(&full(), true, true);
    let out = to_csv(&[o], true, true).unwrap();
    assert_eq!(
        out,
        "timestamp,sender,content,reply_to\n2024-01-15 10:30:00 UTC,Ann,\"a, \"\"quoted\"\" word\",12345\n"
    );
}

#[test]
fn csv_absent_fields_are_empty() {
    let o = OutputMessage::from_message(&Message::new("Bo", "hi"), true, true);
    assert_eq!(to_csv(&[o], true, true).unwrap(), "timestamp,sender,content,reply_to\n,Bo,hi,\n");
}

#[test]
fn csv_header_independent_of_data() {
    let a = OutputMessage::from_message(&full(), false, true);
    let b = OutputMessage::from_message(&Message::new("x", "y"), false, true);
    let ta = to_csv(&[a], false, true).unwrap();
    let tb = to_csv(&[b.clone(), b], false, true).unwrap();
    assert_eq!(ta.lines().next(), Some("sender,content,reply_to"));
    assert_eq!(tb.lines().next(), Some("sender,content,reply_to"));
}

#[test]
fn json_object_keys_follow_options() {
    let m = full();
    for (ts, rp) in [(false, false), (true, false), (false, true), (true, true)] {
        let o = OutputMessage::from_message(&m, ts, rp);
        let text = to_json_object(&o, false).unwrap();
        assert_eq!(text.contains("\"timestamp\":"), ts);
        assert_eq!(text.contains("\"reply_to\":"), rp);
        assert!(text.contains("\"sender\":\"Ann\""));
    }
    let o = OutputMessage::from_message(&Message::new("Bo", "hi"), true, true);
    assert_eq!(to_json_object(&o, false).unwrap(), "{\"sender\":\"Bo\",\"content\":\"hi\"}");
}

#[test]
fn json_escapes_strings() {
    let o = OutputMessage::from_message(&full(), true, true);
    assert_eq!(
        to_jsonl(&[o.clone()]).unwrap(),
        "{\"timestamp\":\"2024-01-15 10:30:00 UTC\",\"sender\":\"Ann\",\"content\":\"a, \\\"quoted\\\" word\",\"reply_to\":\"12345\"}"
    );
    assert_eq!(
        to_json(&[o]).unwrap(),
        "[\n  {\n    \"timestamp\": \"2024-01-15 10:30:00 UTC\",\n    \"sender\": \"Ann\",\n    \"content\": \"a, \\\"quoted\\\" word\",\n    \"reply_to\": \"12345\"\n  }\n]"
    );
}

#[test]
fn empty_outputs() {
    assert_eq!(to_json(&[]).unwrap(), "[]");
    assert_eq!(to_jsonl(&[]).unwrap(), "");
    assert_eq!(format_output(&[], Format::Csv, false, false).unwrap(), "sender,content\n");
}

#[test]
fn jsonl_one_line_per_message() {
    let a = OutputMessage::from_message(&Message::new("A", "x"), false, false);
    let b = OutputMessage::from_message(&Message::new("B", "y"), false, false);
    let out = format_output(&[a, b], Format::Jsonl, false, false).unwrap();
    assert_eq!(out, "{\"sender\":\"A\",\"content\":\"x\"}\n{\"sender\":\"B\",\"content\":\"y\"}");
}

#[test]
fn selectors_ignore_case() {
    assert_eq!(parse_platform("TeLeGrAm").unwrap(), Platform::Telegram);
    assert_eq!(parse_platform("IG").unwrap(), Platform::Instagram);
    assert_eq!(parse_format("JSONL").unwrap(), Format::Jsonl);
    assert_eq!(parse_format("Csv").unwrap(), Format::Csv);
    assert!(parse_format("yaml").is_err());
}

#[test]
fn lowercase_selectors_exact() {
    assert_eq!(platform_from_lowercase(&"wa".to_string()), Some(Platform::WhatsApp));
    assert_eq!(platform_from_lowercase(&"dc".to_string()), Some(Platform::Discord));
    assert_eq!(platform_from_lowercase(&"WA".to_string()), None);
    assert_eq!(platform_from_lowercase(&"signal".to_string()), None);
    assert_eq!(format_from_lowercase(&"json".to_string()), Some(Format::Json));
    assert_eq!(format_from_lowercase(&"Json".to_string()), None);
}

#[test]
fn json_escapes_control_characters() {
    let o = OutputMessage::from_message(&Message::new("C\\D", "a\u{1}b\tc\u{8}"), false, false);
    assert_eq!(
        to_json_object(&o, false).unwrap(),
        "{\"sender\":\"C\\\\D\",\"content\":\"a\\u0001b\\tc\\b\"}"
    );
}

#[test]
fn csv_quotes_line_breaks_only_where_needed() {
    let o = OutputMessage::from_message(&Message::new("x y", "one\rtwo"), false, false);
    assert_eq!(to_csv(&[o], false, false).unwrap(), "sender,content\nx y,\"one\rtwo\"\n");
}
