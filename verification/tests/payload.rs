use chat_session::message::{ends_with, message_value, read_message};
use chat_session::{decode_payload, encode_payload, ChatMessage, DecodeError};

fn message(from: &str, body: &str) -> ChatMessage {
    ChatMessage { from: from.to_string(), body: body.to_string() }
}

#[test]
fn decode_payload_reads_sender_and_text() {
    let got = decode_payload("{\"from\":\"alice\",\"message\":\"hi\"}");
    assert_eq!(got, Ok(message("alice", "hi")));
}

#[test]
fn decode_payload_ignores_members_it_does_not_know() {
    let got = decode_payload("{\"message\":\"hi\",\"time\":1700000000,\"from\":\"bob\"}");
    assert_eq!(got, Ok(message("bob", "hi")));
}

#[test]
fn decode_payload_without_sender_is_malformed() {
    assert_eq!(decode_payload("{\"message\":\"hi\"}"), Err(DecodeError::Malformed));
    assert_eq!(decode_payload("{\"from\":null,\"message\":\"hi\"}"), Err(DecodeError::Malformed));
    assert_eq!(decode_payload("{\"from\":3,\"message\":\"hi\"}"), Err(DecodeError::Malformed));
}

#[test]
fn decode_payload_without_text_is_malformed() {
    assert_eq!(decode_payload("{\"from\":\"alice\"}"), Err(DecodeError::Malformed));
    assert_eq!(decode_payload("{\"from\":\"alice\",\"message\":null}"), Err(DecodeError::Malformed));
    assert_eq!(
        decode_payload("{\"from\":\"alice\",\"message\":[\"hi\"]}"),
        Err(DecodeError::Malformed)
    );
    assert_eq!(decode_payload("{\"from\":\"alice\",\"body\":\"hi\"}"), Err(DecodeError::Malformed));
}

#[test]
fn decode_payload_that_is_no_json_object_is_malformed() {
    assert_eq!(decode_payload(""), Err(DecodeError::Malformed));
    assert_eq!(decode_payload("hi"), Err(DecodeError::Malformed));
    assert_eq!(decode_payload("\"hi\""), Err(DecodeError::Malformed));
    assert_eq!(decode_payload("[\"alice\",\"hi\"]"), Err(DecodeError::Malformed));
    assert_eq!(decode_payload("{\"from\":\"alice\",\"message\":\"hi\""), Err(DecodeError::Malformed));
}

#[test]
fn encode_payload_gives_the_two_members() {
    assert_eq!(encode_payload(&message("alice", "hi")), "{\"from\":\"alice\",\"message\":\"hi\"}");
    assert_eq!(encode_payload(&message("", "")), "{\"from\":\"\",\"message\":\"\"}");
}

#[test]
fn payload_round_trip() {
    let m = message("al\"ice", "line one\nline two \\ \u{1F600} \u{7}");
    assert_eq!(decode_payload(&encode_payload(&m)), Ok(m));
    let m = message("", "");
    assert_eq!(decode_payload(&encode_payload(&m)), Ok(m));
}

#[test]
fn payload_round_trip_through_a_document() {
    let m = message("alice", "hi");
    assert_eq!(read_message(&message_value(&m)), Ok(m));
}

#[test]
fn message_value_is_the_object_that_the_parser_reads() {
    let expected: serde_json::Value =
        serde_json::from_str("{\"message\":\"hi\",\"from\":\"alice\"}").unwrap();
    assert_eq!(message_value(&message("alice", "hi")), expected);
}

#[test]
fn ends_with_compares_the_tail() {
    assert!(ends_with("cat.gif", ".gif"));
    assert!(ends_with(".gif", ".gif"));
    assert!(ends_with("anything", ""));
    assert!(ends_with("", ""));
    assert!(!ends_with("gif", ".gif"));
    assert!(!ends_with("cat.gif ", ".gif"));
    assert!(!ends_with("cat.GIF", ".gif"));
    assert!(!ends_with("", ".gif"));
    assert!(ends_with("na\u{ef}ve \u{1F600}.gif", ".gif"));
    assert!(ends_with("caf\u{e9}", "f\u{e9}"));
    assert!(!ends_with("cafe", "f\u{e9}"));
}

#[test]
fn image_is_a_body_that_ends_with_gif() {
    assert!(message("alice", "https://example.org/cat.gif").is_image());
    assert!(message("alice", ".gif").is_image());
    assert!(!message("alice", "cat.gif?size=2").is_image());
    assert!(!message("alice.gif", "hello").is_image());
    assert!(!message("alice", "").is_image());
}
