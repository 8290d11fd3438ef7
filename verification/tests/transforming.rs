use eludris_bridge::event::MessagePayload;
use eludris_bridge::event::Reply;

fn payload(author: &str, content: &str) -> MessagePayload {
    MessagePayload {
        author: author.to_string(),
        content: content.to_string(),
        replies: Vec::new(),
        attachments: Vec::new(),
    }
}

#[test]
fn transform_plain_content_is_kept() {
    let m = payload("alice", "hi");
    let (name, body) = eludris_bridge::transform::transform(&m).unwrap();
    assert_eq!(name, "Bridge-alice");
    assert_eq!(body, "hi");
}

#[test]
fn transform_empty_message_is_skipped() {
    let m = payload("alice", "");
    assert!(eludris_bridge::transform::transform(&m).is_none());
}

#[test]
fn transform_long_author_is_truncated() {
    let author = "abcdefghijklmnopqrstuvwxyz0123456789";
    let m = payload(author, "hi");
    let (name, _body) = eludris_bridge::transform::transform(&m).unwrap();
    let mut expected = format!("Bridge-{}", author);
    expected.truncate(32);
    assert_eq!(name, expected);
    assert_eq!(name.chars().count(), 32);
}

#[test]
fn transform_reply_mention_is_truncated_without_prefix() {
    let long = "abcdefghijklmnopqrstuvwxyz0123456789";
    let mut m = payload("alice", "t");
    m.replies.push(Reply { author: long.to_string(), content: "r".to_string() });
    let (_name, body) = eludris_bridge::transform::transform(&m).unwrap();
    let expected = format!("\n> r\n@{}\nt", &long[..32]);
    assert_eq!(body, expected);
}

#[test]
fn transform_multiline_reply_quotes_each_line() {
    let mut m = payload("alice", "reply text");
    m.replies.push(Reply { author: "bob".to_string(), content: "a\nb".to_string() });
    let (_name, body) = eludris_bridge::transform::transform(&m).unwrap();
    assert_eq!(body, "\n> a\n> b\n@bob\nreply text");
}

#[test]
fn transform_only_first_reply_is_rendered() {
    let mut m = payload("alice", "t");
    m.replies.push(Reply { author: "bob".to_string(), content: "one".to_string() });
    m.replies.push(Reply { author: "eve".to_string(), content: "two".to_string() });
    let (_name, body) = eludris_bridge::transform::transform(&m).unwrap();
    assert_eq!(body, "\n> one\n@bob\nt");
}

#[test]
fn transform_attachments_with_empty_content_have_no_leading_newline() {
    let mut m = payload("alice", "");
    m.attachments.push("http://x/img.png".to_string());
    let (name, body) = eludris_bridge::transform::transform(&m).unwrap();
    assert_eq!(name, "Bridge-alice");
    assert_eq!(body, "http://x/img.png");
}

#[test]
fn transform_attachments_after_content_get_one_separator() {
    let mut m = payload("alice", "hi");
    m.attachments.push("http://x/img.png".to_string());
    let (_name, body) = eludris_bridge::transform::transform(&m).unwrap();
    assert_eq!(body, "hi\nhttp://x/img.png");
}

#[test]
fn transform_attachments_are_joined_with_newlines() {
    let mut m = payload("alice", "");
    m.attachments.push("http://x/a.png".to_string());
    m.attachments.push("http://x/b.png".to_string());
    let (_name, body) = eludris_bridge::transform::transform(&m).unwrap();
    assert_eq!(body, "http://x/a.png\nhttp://x/b.png");
}

#[test]
fn transform_crlf_reply_lines_drop_the_carriage_return() {
    let mut m = payload("alice", "t");
    m.replies.push(Reply { author: "bob".to_string(), content: "a\r\nb".to_string() });
    let (_name, body) = eludris_bridge::transform::transform(&m).unwrap();
    assert_eq!(body, "\n> a\n> b\n@bob\nt");
}

#[test]
fn transform_short_author_is_kept_whole() {
    let m = payload("z", "c");
    let (name, _body) = eludris_bridge::transform::transform(&m).unwrap();
    assert_eq!(name, "Bridge-z");
}
