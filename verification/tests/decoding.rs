use eludris_bridge::decode::decode;
use eludris_bridge::decode::decode_text;
use eludris_bridge::event::DecodeError;
use eludris_bridge::event::EventData;
use eludris_bridge::event::Platform;

#[test]
fn decode_message_create_payload() {
    let raw = r#"{"platform":"discord","t":"MessageCreate","d":{"author":"alice","content":"hi","replies":[],"attachments":[]}}"#;
    let ev = decode_text(raw).unwrap();
    assert_eq!(ev.platform, Platform::Discord);
    assert_eq!(ev.identifier, "");
    match ev.data {
        EventData::MessageCreate(m) => {
            assert_eq!(m.author, "alice");
            assert_eq!(m.content, "hi");
            assert!(m.replies.is_empty());
            assert!(m.attachments.is_empty());
        }
        other => panic!("expected a message creation, got {:?}", other),
    }
}

#[test]
fn decode_eludris_platform_with_identifier() {
    let raw = r#"{"platform":"eludris","identifier":"node-a","t":"MessageCreate","d":{"author":"bob","content":"x","replies":[],"attachments":[]}}"#;
    let ev = decode_text(raw).unwrap();
    assert_eq!(ev.platform, Platform::Eludris);
    assert_eq!(ev.identifier, "node-a");
}

#[test]
fn decode_member_order_is_irrelevant() {
    let raw = r#"{"d":{"attachments":[],"content":"hi","replies":[],"author":"alice"},"t":"MessageCreate","platform":"discord"}"#;
    let ev = decode_text(raw).unwrap();
    match ev.data {
        EventData::MessageCreate(m) => {
            assert_eq!(m.author, "alice");
            assert_eq!(m.content, "hi");
        }
        other => panic!("expected a message creation, got {:?}", other),
    }
}

#[test]
fn decode_unknown_kind_is_unhandled() {
    let raw = r#"{"platform":"discord","t":"TypingStart","d":{"user_id":42,"nested":[1,{"a":null},true]}}"#;
    let ev = decode_text(raw).unwrap();
    assert_eq!(ev.data, EventData::Unhandled);
}

#[test]
fn decode_recognized_ignored_kind() {
    let raw = r#"{"platform":"discord","t":"MessageDelete","d":{"id":7,"channel_id":9}}"#;
    let ev = decode_text(raw).unwrap();
    assert_eq!(ev.data, EventData::MessageDelete);
}

#[test]
fn decode_unknown_platform_fails() {
    let raw = r#"{"platform":"matrix","t":"MessageCreate","d":{"author":"a","content":"b","replies":[],"attachments":[]}}"#;
    assert_eq!(decode_text(raw).unwrap_err(), DecodeError::Schema);
}

#[test]
fn decode_missing_platform_fails() {
    let raw = r#"{"t":"MessageCreate","d":{"author":"a","content":"b","replies":[],"attachments":[]}}"#;
    assert_eq!(decode_text(raw).unwrap_err(), DecodeError::Schema);
}

#[test]
fn decode_missing_kind_fails() {
    let raw = r#"{"platform":"discord","d":{"author":"a","content":"b","replies":[],"attachments":[]}}"#;
    assert_eq!(decode_text(raw).unwrap_err(), DecodeError::Schema);
}

#[test]
fn decode_missing_payload_field_fails() {
    let raw = r#"{"platform":"discord","t":"MessageCreate","d":{"content":"b","replies":[],"attachments":[]}}"#;
    assert_eq!(decode_text(raw).unwrap_err(), DecodeError::Schema);
}

#[test]
fn decode_absent_replies_fails() {
    let raw = r#"{"platform":"discord","t":"MessageCreate","d":{"author":"a","content":"b","attachments":[]}}"#;
    assert_eq!(decode_text(raw).unwrap_err(), DecodeError::Schema);
}

#[test]
fn decode_duplicate_member_fails() {
    let raw = r#"{"platform":"discord","platform":"discord","t":"MessageDelete","d":{}}"#;
    assert_eq!(decode_text(raw).unwrap_err(), DecodeError::Schema);
}

#[test]
fn decode_malformed_text_fails() {
    assert_eq!(decode_text("{not a document").unwrap_err(), DecodeError::Schema);
    assert_eq!(decode_text("").unwrap_err(), DecodeError::Schema);
    assert_eq!(decode_text("[1,2]").unwrap_err(), DecodeError::Schema);
}

#[test]
fn decode_trailing_garbage_fails() {
    let raw = r#"{"platform":"discord","t":"MessageDelete","d":{}} tail"#;
    assert_eq!(decode_text(raw).unwrap_err(), DecodeError::Schema);
}

#[test]
fn decode_invalid_utf8_fails_with_encoding() {
    let bytes: Vec<u8> = vec![0xff, 0xfe, 0x20];
    assert_eq!(decode(&bytes).unwrap_err(), DecodeError::Encoding);
}

#[test]
fn decode_bytes_roundtrip() {
    let raw = r#"{"platform":"discord","t":"MessageCreate","d":{"author":"alice","content":"hi","replies":[],"attachments":[]}}"#;
    let ev = decode(raw.as_bytes()).unwrap();
    assert_eq!(ev.platform, Platform::Discord);
}

#[test]
fn decode_string_escapes() {
    let raw = r#"{"platform":"discord","t":"MessageCreate","d":{"author":"a\u0041b","content":"l1\nl2\t\"q\"\\","replies":[],"attachments":[]}}"#;
    let ev = decode_text(raw).unwrap();
    match ev.data {
        EventData::MessageCreate(m) => {
            assert_eq!(m.author, "aAb");
            assert_eq!(m.content, "l1\nl2\t\"q\"\\");
        }
        other => panic!("expected a message creation, got {:?}", other),
    }
}

#[test]
fn decode_replies_and_attachments() {
    let raw = r#"{"platform":"discord","t":"MessageCreate","d":{"author":"alice","content":"c","replies":[{"author":"bob","content":"r1"},{"author":"eve","content":"r2"}],"attachments":["http://x/a.png","http://x/b.png"]}}"#;
    let ev = decode_text(raw).unwrap();
    match ev.data {
        EventData::MessageCreate(m) => {
            assert_eq!(m.replies.len(), 2);
            assert_eq!(m.replies[0].author, "bob");
            assert_eq!(m.replies[0].content, "r1");
            assert_eq!(m.replies[1].author, "eve");
            assert_eq!(m.attachments, vec!["http://x/a.png".to_string(), "http://x/b.png".to_string()]);
        }
        other => panic!("expected a message creation, got {:?}", other),
    }
}

#[test]
fn decode_unknown_payload_members_are_skipped() {
    let raw = r#"{"platform":"discord","t":"MessageCreate","extra":[{"deep":{}}],"d":{"id":123,"author":"alice","content":"hi","replies":[],"attachments":[],"pinned":false}}"#;
    let ev = decode_text(raw).unwrap();
    match ev.data {
        EventData::MessageCreate(m) => assert_eq!(m.author, "alice"),
        other => panic!("expected a message creation, got {:?}", other),
    }
}

#[test]
fn decode_surrogate_escape_fails() {
    let raw = r#"{"platform":"discord","t":"MessageCreate","d":{"author":"\ud800","content":"","replies":[],"attachments":[]}}"#;
    assert_eq!(decode_text(raw).unwrap_err(), DecodeError::Schema);
}
