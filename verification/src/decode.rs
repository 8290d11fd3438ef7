//! Decoding a raw bus payload into an [`Event`].
//!
//! A payload is UTF-8 text holding one tagged-union document of the grammar in
//! [`crate::json`]: an object with a `platform` tag (closed set), an optional
//! `identifier`, a required kind tag `t`, and a payload `d` whose shape is
//! read only for message-creation events. Unknown members are accepted and
//! skipped; a duplicate of a recognized member is an error; an unknown kind
//! tag decodes to [`EventData::Unhandled`] so the schema can grow. The object
//! is scanned once to validate it and record where the recognized members'
//! values start, then those values are read, so member order never matters.

use crate::event::DecodeError;
use crate::event::Event;
use crate::event::EventData;
use crate::event::MessagePayload;
use crate::event::Platform;
use crate::event::Reply;
use crate::event::SpecEvent;
use crate::event::SpecEventData;
use crate::event::SpecMessagePayload;
use crate::event::SpecReply;
use crate::json::parse_string;
use crate::json::skip_value;
use crate::json::spec_parse_string;
use crate::json::spec_skip_value;
use crate::json::spec_ws;
use crate::json::ws;
use crate::text::chars_of_str;
use crate::text::eq_chars_str;
use crate::text::string_from_chars;
use vstd::prelude::*;
use vstd::utf8::decode_utf8;
use vstd::utf8::valid_utf8;

verus! {

/// Relies on `core::str::from_utf8` (std): it succeeds exactly on valid UTF-8
/// and returns the text that the bytes encode.
#[verifier::external_body]
fn utf8_to_string(b: &[u8]) -> (r: Option<String>)
    ensures
        r is Some <==> valid_utf8(b@),
        r matches Some(s) ==> s@ == decode_utf8(b@),
{
    match core::str::from_utf8(b) {
        Ok(s) => Some(s.to_owned()),
        Err(_) => None,
    }
}

pub open spec fn opt_chars_view(o: Option<Vec<char>>) -> Option<Seq<char>> {
    match o {
        Some(v) => Some(v@),
        None => None,
    }
}

pub open spec fn opt_replies_view(o: Option<Vec<Reply>>) -> Option<Seq<SpecReply>> {
    match o {
        Some(v) => Some(v@.map_values(|r: Reply| r@)),
        None => None,
    }
}

pub open spec fn opt_strings_view(o: Option<Vec<String>>) -> Option<Seq<Seq<char>>> {
    match o {
        Some(v) => Some(v@.map_values(|a: String| a@)),
        None => None,
    }
}

/// The string value of a member whose value starts (before whitespace) at
/// `pos`.
pub open spec fn spec_string_at(s: Seq<char>, pos: int) -> Option<Seq<char>> {
    match spec_parse_string(s, spec_ws(s, pos)) {
        Some((v, k)) => Some(v),
        None => None,
    }
}

/// What remains of a reply object after one member: either the closing brace,
/// which requires both fields to have been seen, or a comma and more members.
pub open spec fn spec_reply_tail(
    s: Seq<char>,
    i: int,
    author: Option<Seq<char>>,
    content: Option<Seq<char>>,
) -> Option<(SpecReply, int)>
    decreases s.len() - i, 0int,
{
    let j = spec_ws(s, i);
    if !(i <= j < s.len()) {
        None
    } else if s[j] == '}' {
        match (author, content) {
            (Some(a), Some(c)) => Some((SpecReply { author: a, content: c }, j + 1)),
            _ => None,
        }
    } else if s[j] == ',' {
        spec_reply_members(s, j + 1, false, author, content)
    } else {
        None
    }
}

/// The members of a reply object, after its opening brace: `author` and
/// `content` are required strings, a duplicate is an error, anything else is
/// skipped.
pub open spec fn spec_reply_members(
    s: Seq<char>,
    i: int,
    first: bool,
    author: Option<Seq<char>>,
    content: Option<Seq<char>>,
) -> Option<(SpecReply, int)>
    decreases s.len() - i, 1int,
{
    let j = spec_ws(s, i);
    if !(i <= j < s.len()) {
        None
    } else if first && s[j] == '}' {
        match (author, content) {
            (Some(a), Some(c)) => Some((SpecReply { author: a, content: c }, j + 1)),
            _ => None,
        }
    } else {
        match spec_parse_string(s, j) {
            None => None,
            Some((key, k)) => if !(j < k <= s.len()) {
                None
            } else {
                let j2 = spec_ws(s, k);
                if !(k <= j2 < s.len() && s[j2] == ':') {
                    None
                } else if key == "author"@ {
                    if author is Some {
                        None
                    } else {
                        match spec_parse_string(s, spec_ws(s, j2 + 1)) {
                            None => None,
                            Some((v, k2)) => if !(j2 < k2 <= s.len()) {
                                None
                            } else {
                                spec_reply_tail(s, k2, Some(v), content)
                            },
                        }
                    }
                } else if key == "content"@ {
                    if content is Some {
                        None
                    } else {
                        match spec_parse_string(s, spec_ws(s, j2 + 1)) {
                            None => None,
                            Some((v, k2)) => if !(j2 < k2 <= s.len()) {
                                None
                            } else {
                                spec_reply_tail(s, k2, author, Some(v))
                            },
                        }
                    }
                } else {
                    match spec_skip_value(s, j2 + 1) {
                        None => None,
                        Some(k2) => if !(j2 < k2 <= s.len()) {
                            None
                        } else {
                            spec_reply_tail(s, k2, author, content)
                        },
                    }
                }
            },
        }
    }
}

/// A reply object, opening brace at `i`.
pub open spec fn spec_parse_reply(s: Seq<char>, i: int) -> Option<(SpecReply, int)> {
    if 0 <= i < s.len() && s[i] == '{' {
        spec_reply_members(s, i + 1, true, None, None)
    } else {
        None
    }
}

/// The items of an array of reply objects, after the opening bracket.
pub open spec fn spec_reply_items(s: Seq<char>, i: int, first: bool) -> Option<
    (Seq<SpecReply>, int),
>
    decreases s.len() - i,
{
    let j = spec_ws(s, i);
    if !(i <= j < s.len()) {
        None
    } else if first && s[j] == ']' {
        Some((Seq::empty(), j + 1))
    } else {
        match spec_parse_reply(s, j) {
            None => None,
            Some((rep, k)) => if !(j < k <= s.len()) {
                None
            } else {
                let j2 = spec_ws(s, k);
                if !(k <= j2 < s.len()) {
                    None
                } else if s[j2] == ']' {
                    Some((seq![rep], j2 + 1))
                } else if s[j2] == ',' {
                    match spec_reply_items(s, j2 + 1, false) {
                        None => None,
                        Some((rest, k2)) => Some((seq![rep] + rest, k2)),
                    }
                } else {
                    None
                }
            },
        }
    }
}

/// The items of an array of strings, after the opening bracket.
pub open spec fn spec_string_items(s: Seq<char>, i: int, first: bool) -> Option<
    (Seq<Seq<char>>, int),
>
    decreases s.len() - i,
{
    let j = spec_ws(s, i);
    if !(i <= j < s.len()) {
        None
    } else if first && s[j] == ']' {
        Some((Seq::empty(), j + 1))
    } else {
        match spec_parse_string(s, j) {
            None => None,
            Some((v, k)) => if !(j < k <= s.len()) {
                None
            } else {
                let j2 = spec_ws(s, k);
                if !(k <= j2 < s.len()) {
                    None
                } else if s[j2] == ']' {
                    Some((seq![v], j2 + 1))
                } else if s[j2] == ',' {
                    match spec_string_items(s, j2 + 1, false) {
                        None => None,
                        Some((rest, k2)) => Some((seq![v] + rest, k2)),
                    }
                } else {
                    None
                }
            },
        }
    }
}

/// What remains of a message payload object after one member.
pub open spec fn spec_msg_tail(
    s: Seq<char>,
    i: int,
    author: Option<Seq<char>>,
    content: Option<Seq<char>>,
    replies: Option<Seq<SpecReply>>,
    attachments: Option<Seq<Seq<char>>>,
) -> Option<(SpecMessagePayload, int)>
    decreases s.len() - i, 0int,
{
    let j = spec_ws(s, i);
    if !(i <= j < s.len()) {
        None
    } else if s[j] == '}' {
        match (author, content) {
            (Some(a), Some(c)) => match (replies, attachments) {
                (Some(rs), Some(ats)) => Some(
                    (
                        SpecMessagePayload {
                            author: a,
                            content: c,
                            replies: rs,
                            attachments: ats,
                        },
                        j + 1,
                    ),
                ),
                _ => None,
            },
            _ => None,
        }
    } else if s[j] == ',' {
        spec_msg_members(s, j + 1, false, author, content, replies, attachments)
    } else {
        None
    }
}

/// The members of a message payload object, after its opening brace: `author`
/// and `content` are required strings, `replies` a required array of reply
/// objects, `attachments` a required array of strings; a duplicate is an
/// error, anything else is skipped.
pub open spec fn spec_msg_members(
    s: Seq<char>,
    i: int,
    first: bool,
    author: Option<Seq<char>>,
    content: Option<Seq<char>>,
    replies: Option<Seq<SpecReply>>,
    attachments: Option<Seq<Seq<char>>>,
) -> Option<(SpecMessagePayload, int)>
    decreases s.len() - i, 1int,
{
    let j = spec_ws(s, i);
    if !(i <= j < s.len()) {
        None
    } else if first && s[j] == '}' {
        match (author, content) {
            (Some(a), Some(c)) => match (replies, attachments) {
                (Some(rs), Some(ats)) => Some(
                    (
                        SpecMessagePayload {
                            author: a,
                            content: c,
                            replies: rs,
                            attachments: ats,
                        },
                        j + 1,
                    ),
                ),
                _ => None,
            },
            _ => None,
        }
    } else {
        match spec_parse_string(s, j) {
            None => None,
            Some((key, k)) => if !(j < k <= s.len()) {
                None
            } else {
                let j2 = spec_ws(s, k);
                if !(k <= j2 < s.len() && s[j2] == ':') {
                    None
                } else if key == "author"@ {
                    if author is Some {
                        None
                    } else {
                        match spec_parse_string(s, spec_ws(s, j2 + 1)) {
                            None => None,
                            Some((v, k2)) => if !(j2 < k2 <= s.len()) {
                                None
                            } else {
                                spec_msg_tail(s, k2, Some(v), content, replies, attachments)
                            },
                        }
                    }
                } else if key == "content"@ {
                    if content is Some {
                        None
                    } else {
                        match spec_parse_string(s, spec_ws(s, j2 + 1)) {
                            None => None,
                            Some((v, k2)) => if !(j2 < k2 <= s.len()) {
                                None
                            } else {
                                spec_msg_tail(s, k2, author, Some(v), replies, attachments)
                            },
                        }
                    }
                } else if key == "replies"@ {
                    if replies is Some {
                        None
                    } else {
                        let jv = spec_ws(s, j2 + 1);
                        if !(j2 < jv < s.len() && s[jv] == '[') {
                            None
                        } else {
                            match spec_reply_items(s, jv + 1, true) {
                                None => None,
                                Some((rs, k2)) => if !(j2 < k2 <= s.len()) {
                                    None
                                } else {
                                    spec_msg_tail(s, k2, author, content, Some(rs), attachments)
                                },
                            }
                        }
                    }
                } else if key == "attachments"@ {
                    if attachments is Some {
                        None
                    } else {
                        let jv = spec_ws(s, j2 + 1);
                        if !(j2 < jv < s.len() && s[jv] == '[') {
                            None
                        } else {
                            match spec_string_items(s, jv + 1, true) {
                                None => None,
                                Some((ats, k2)) => if !(j2 < k2 <= s.len()) {
                                    None
                                } else {
                                    spec_msg_tail(s, k2, author, content, replies, Some(ats))
                                },
                            }
                        }
                    }
                } else {
                    match spec_skip_value(s, j2 + 1) {
                        None => None,
                        Some(k2) => if !(j2 < k2 <= s.len()) {
                            None
                        } else {
                            spec_msg_tail(s, k2, author, content, replies, attachments)
                        },
                    }
                }
            },
        }
    }
}

/// A message payload object, opening brace at `i`.
pub open spec fn spec_parse_msg(s: Seq<char>, i: int) -> Option<(SpecMessagePayload, int)> {
    if 0 <= i < s.len() && s[i] == '{' {
        spec_msg_members(s, i + 1, true, None, None, None, None)
    } else {
        None
    }
}

fn reply_of(author: Vec<char>, content: Vec<char>) -> (r: Reply)
    ensures
        r@ == (SpecReply { author: author@, content: content@ }),
{
    Reply { author: string_from_chars(&author), content: string_from_chars(&content) }
}

fn reply_tail(s: &Vec<char>, i: usize, author: Option<Vec<char>>, content: Option<Vec<char>>) -> (r:
    Option<(Reply, usize)>)
    requires
        i <= s@.len(),
    ensures
        match r {
            Some((rep, k)) => spec_reply_tail(s@, i as int, opt_chars_view(author), opt_chars_view(content))
                == Some((rep@, k as int)) && i < k <= s@.len(),
            None => spec_reply_tail(s@, i as int, opt_chars_view(author), opt_chars_view(content)) is None,
        },
    decreases s@.len() - i, 0int,
{
    let j = ws(s, i);
    if j >= s.len() {
        return None;
    }
    if s[j] == '}' {
        match (author, content) {
            (Some(a), Some(c)) => Some((reply_of(a, c), j + 1)),
            _ => None,
        }
    } else if s[j] == ',' {
        reply_members(s, j + 1, false, author, content)
    } else {
        None
    }
}

fn reply_members(
    s: &Vec<char>,
    i: usize,
    first: bool,
    author: Option<Vec<char>>,
    content: Option<Vec<char>>,
) -> (r: Option<(Reply, usize)>)
    requires
        i <= s@.len(),
    ensures
        match r {
            Some((rep, k)) => spec_reply_members(
                s@,
                i as int,
                first,
                opt_chars_view(author),
                opt_chars_view(content),
            ) == Some((rep@, k as int)) && i < k <= s@.len(),
            None => spec_reply_members(
                s@,
                i as int,
                first,
                opt_chars_view(author),
                opt_chars_view(content),
            ) is None,
        },
    decreases s@.len() - i, 1int,
{
    let j = ws(s, i);
    if j >= s.len() {
        return None;
    }
    if first && s[j] == '}' {
        return match (author, content) {
            (Some(a), Some(c)) => Some((reply_of(a, c), j + 1)),
            _ => None,
        };
    }
    match parse_string(s, j) {
        None => None,
        Some((key, k)) => {
            let j2 = ws(s, k);
            if j2 >= s.len() || s[j2] != ':' {
                return None;
            }
            if eq_chars_str(&key, "author") {
                if author.is_some() {
                    return None;
                }
                let jv = ws(s, j2 + 1);
                match parse_string(s, jv) {
                    None => None,
                    Some((v, k2)) => reply_tail(s, k2, Some(v), content),
                }
            } else if eq_chars_str(&key, "content") {
                if content.is_some() {
                    return None;
                }
                let jv = ws(s, j2 + 1);
                match parse_string(s, jv) {
                    None => None,
                    Some((v, k2)) => reply_tail(s, k2, author, Some(v)),
                }
            } else {
                match skip_value(s, j2 + 1) {
                    None => None,
                    Some(k2) => reply_tail(s, k2, author, content),
                }
            }
        },
    }
}

fn parse_reply(s: &Vec<char>, i: usize) -> (r: Option<(Reply, usize)>)
    requires
        i <= s@.len(),
    ensures
        match r {
            Some((rep, k)) => spec_parse_reply(s@, i as int) == Some((rep@, k as int)) && i < k
                <= s@.len(),
            None => spec_parse_reply(s@, i as int) is None,
        },
{
    if i < s.len() && s[i] == '{' {
        reply_members(s, i + 1, true, None, None)
    } else {
        None
    }
}

fn reply_items(s: &Vec<char>, i: usize, first: bool) -> (r: Option<(Vec<Reply>, usize)>)
    requires
        i <= s@.len(),
    ensures
        match r {
            Some((reps, k)) => spec_reply_items(s@, i as int, first) == Some(
                (reps@.map_values(|x: Reply| x@), k as int),
            ) && i < k <= s@.len(),
            None => spec_reply_items(s@, i as int, first) is None,
        },
    decreases s@.len() - i,
{
    let j = ws(s, i);
    if j >= s.len() {
        return None;
    }
    if first && s[j] == ']' {
        let reps: Vec<Reply> = Vec::new();
        proof {
            assert(reps@.map_values(|x: Reply| x@) =~= Seq::<SpecReply>::empty());
        }
        return Some((reps, j + 1));
    }
    match parse_reply(s, j) {
        None => None,
        Some((rep, k)) => {
            if k <= j {
                return None;
            }
            let j2 = ws(s, k);
            if j2 >= s.len() {
                return None;
            }
            if s[j2] == ']' {
                let ghost grep = rep@;
                let mut reps: Vec<Reply> = Vec::new();
                reps.push(rep);
                proof {
                    assert(reps@.map_values(|x: Reply| x@) =~= seq![grep]);
                }
                Some((reps, j2 + 1))
            } else if s[j2] == ',' {
                match reply_items(s, j2 + 1, false) {
                    None => None,
                    Some((rest, k2)) => {
                        let ghost grep = rep@;
                        let ghost grest = rest@.map_values(|x: Reply| x@);
                        let mut reps = rest;
                        reps.insert(0, rep);
                        proof {
                            assert(reps@.map_values(|x: Reply| x@) =~= seq![grep] + grest);
                        }
                        Some((reps, k2))
                    },
                }
            } else {
                None
            }
        },
    }
}

fn string_items(s: &Vec<char>, i: usize, first: bool) -> (r: Option<(Vec<String>, usize)>)
    requires
        i <= s@.len(),
    ensures
        match r {
            Some((vals, k)) => spec_string_items(s@, i as int, first) == Some(
                (vals@.map_values(|a: String| a@), k as int),
            ) && i < k <= s@.len(),
            None => spec_string_items(s@, i as int, first) is None,
        },
    decreases s@.len() - i,
{
    let j = ws(s, i);
    if j >= s.len() {
        return None;
    }
    if first && s[j] == ']' {
        let vals: Vec<String> = Vec::new();
        proof {
            assert(vals@.map_values(|a: String| a@) =~= Seq::<Seq<char>>::empty());
        }
        return Some((vals, j + 1));
    }
    match parse_string(s, j) {
        None => None,
        Some((v, k)) => {
            let j2 = ws(s, k);
            if j2 >= s.len() {
                return None;
            }
            let sv = string_from_chars(&v);
            let ghost gv = v@;
            if s[j2] == ']' {
                let mut vals: Vec<String> = Vec::new();
                vals.push(sv);
                proof {
                    assert(vals@.map_values(|a: String| a@) =~= seq![gv]);
                }
                Some((vals, j2 + 1))
            } else if s[j2] == ',' {
                match string_items(s, j2 + 1, false) {
                    None => None,
                    Some((rest, k2)) => {
                        let ghost grest = rest@.map_values(|a: String| a@);
                        let mut vals = rest;
                        vals.insert(0, sv);
                        proof {
                            assert(vals@.map_values(|a: String| a@) =~= seq![gv] + grest);
                        }
                        Some((vals, k2))
                    },
                }
            } else {
                None
            }
        },
    }
}

fn msg_of(
    author: Vec<char>,
    content: Vec<char>,
    replies: Vec<Reply>,
    attachments: Vec<String>,
) -> (r: MessagePayload)
    ensures
        r@ == (SpecMessagePayload {
            author: author@,
            content: content@,
            replies: replies@.map_values(|x: Reply| x@),
            attachments: attachments@.map_values(|a: String| a@),
        }),
{
    MessagePayload {
        author: string_from_chars(&author),
        content: string_from_chars(&content),
        replies,
        attachments,
    }
}

fn msg_tail(
    s: &Vec<char>,
    i: usize,
    author: Option<Vec<char>>,
    content: Option<Vec<char>>,
    replies: Option<Vec<Reply>>,
    attachments: Option<Vec<String>>,
) -> (r: Option<(MessagePayload, usize)>)
    requires
        i <= s@.len(),
    ensures
        match r {
            Some((m, k)) => spec_msg_tail(
                s@,
                i as int,
                opt_chars_view(author),
                opt_chars_view(content),
                opt_replies_view(replies),
                opt_strings_view(attachments),
            ) == Some((m@, k as int)) && i < k <= s@.len(),
            None => spec_msg_tail(
                s@,
                i as int,
                opt_chars_view(author),
                opt_chars_view(content),
                opt_replies_view(replies),
                opt_strings_view(attachments),
            ) is None,
        },
    decreases s@.len() - i, 0int,
{
    let j = ws(s, i);
    if j >= s.len() {
        return None;
    }
    if s[j] == '}' {
        match (author, content) {
            (Some(a), Some(c)) => match (replies, attachments) {
                (Some(rs), Some(ats)) => Some((msg_of(a, c, rs, ats), j + 1)),
                _ => None,
            },
            _ => None,
        }
    } else if s[j] == ',' {
        msg_members(s, j + 1, false, author, content, replies, attachments)
    } else {
        None
    }
}

fn msg_members(
    s: &Vec<char>,
    i: usize,
    first: bool,
    author: Option<Vec<char>>,
    content: Option<Vec<char>>,
    replies: Option<Vec<Reply>>,
    attachments: Option<Vec<String>>,
) -> (r: Option<(MessagePayload, usize)>)
    requires
        i <= s@.len(),
    ensures
        match r {
            Some((m, k)) => spec_msg_members(
                s@,
                i as int,
                first,
                opt_chars_view(author),
                opt_chars_view(content),
                opt_replies_view(replies),
                opt_strings_view(attachments),
            ) == Some((m@, k as int)) && i < k <= s@.len(),
            None => spec_msg_members(
                s@,
                i as int,
                first,
                opt_chars_view(author),
                opt_chars_view(content),
                opt_replies_view(replies),
                opt_strings_view(attachments),
            ) is None,
        },
    decreases s@.len() - i, 1int,
{
    let j = ws(s, i);
    if j >= s.len() {
        return None;
    }
    if first && s[j] == '}' {
        return match (author, content) {
            (Some(a), Some(c)) => match (replies, attachments) {
                (Some(rs), Some(ats)) => Some((msg_of(a, c, rs, ats), j + 1)),
                _ => None,
            },
            _ => None,
        };
    }
    match parse_string(s, j) {
        None => None,
        Some((key, k)) => {
            let j2 = ws(s, k);
            if j2 >= s.len() || s[j2] != ':' {
                return None;
            }
            if eq_chars_str(&key, "author") {
                if author.is_some() {
                    return None;
                }
                let jv = ws(s, j2 + 1);
                match parse_string(s, jv) {
                    None => None,
                    Some((v, k2)) => msg_tail(s, k2, Some(v), content, replies, attachments),
                }
            } else if eq_chars_str(&key, "content") {
                if content.is_some() {
                    return None;
                }
                let jv = ws(s, j2 + 1);
                match parse_string(s, jv) {
                    None => None,
                    Some((v, k2)) => msg_tail(s, k2, author, Some(v), replies, attachments),
                }
            } else if eq_chars_str(&key, "replies") {
                if replies.is_some() {
                    return None;
                }
                let jv = ws(s, j2 + 1);
                if jv >= s.len() || s[jv] != '[' {
                    return None;
                }
                match reply_items(s, jv + 1, true) {
                    None => None,
                    Some((rs, k2)) => msg_tail(s, k2, author, content, Some(rs), attachments),
                }
            } else if eq_chars_str(&key, "attachments") {
                if attachments.is_some() {
                    return None;
                }
                let jv = ws(s, j2 + 1);
                if jv >= s.len() || s[jv] != '[' {
                    return None;
                }
                match string_items(s, jv + 1, true) {
                    None => None,
                    Some((ats, k2)) => msg_tail(s, k2, author, content, replies, Some(ats)),
                }
            } else {
                match skip_value(s, j2 + 1) {
                    None => None,
                    Some(k2) => msg_tail(s, k2, author, content, replies, attachments),
                }
            }
        },
    }
}

fn parse_msg(s: &Vec<char>, i: usize) -> (r: Option<(MessagePayload, usize)>)
    requires
        i <= s@.len(),
    ensures
        match r {
            Some((m, k)) => spec_parse_msg(s@, i as int) == Some((m@, k as int)) && i < k <= s@.len(),
            None => spec_parse_msg(s@, i as int) is None,
        },
{
    if i < s.len() && s[i] == '{' {
        msg_members(s, i + 1, true, None, None, None, None)
    } else {
        None
    }
}

/// Where the recognized top-level members' values start (before whitespace);
/// `None` for a member the document does not have.
pub struct SpecTopSlots {
    pub platform: Option<int>,
    pub identifier: Option<int>,
    pub kind: Option<int>,
    pub data: Option<int>,
}

struct TopSlots {
    platform: Option<usize>,
    identifier: Option<usize>,
    kind: Option<usize>,
    data: Option<usize>,
}

pub open spec fn opt_pos_view(o: Option<usize>) -> Option<int> {
    match o {
        Some(p) => Some(p as int),
        None => None,
    }
}

impl View for TopSlots {
    type V = SpecTopSlots;

    closed spec fn view(&self) -> SpecTopSlots {
        SpecTopSlots {
            platform: opt_pos_view(self.platform),
            identifier: opt_pos_view(self.identifier),
            kind: opt_pos_view(self.kind),
            data: opt_pos_view(self.data),
        }
    }
}

pub open spec fn slots_bounded(t: SpecTopSlots, n: int) -> bool {
    &&& (t.platform matches Some(p) ==> 0 <= p <= n)
    &&& (t.identifier matches Some(p) ==> 0 <= p <= n)
    &&& (t.kind matches Some(p) ==> 0 <= p <= n)
    &&& (t.data matches Some(p) ==> 0 <= p <= n)
}

/// What remains of the top-level object after one member.
pub open spec fn spec_top_tail(s: Seq<char>, i: int, slots: SpecTopSlots) -> Option<
    (SpecTopSlots, int),
>
    decreases s.len() - i, 0int,
{
    let j = spec_ws(s, i);
    if !(i <= j < s.len()) {
        None
    } else if s[j] == '}' {
        Some((slots, j + 1))
    } else if s[j] == ',' {
        spec_top_members(s, j + 1, false, slots)
    } else {
        None
    }
}

/// The members of the top-level object, after its opening brace: the position
/// of each recognized member's value is recorded, a duplicate of a recognized
/// member is an error, every value is checked against the grammar, anything
/// unrecognized is skipped.
pub open spec fn spec_top_members(s: Seq<char>, i: int, first: bool, slots: SpecTopSlots) -> Option<
    (SpecTopSlots, int),
>
    decreases s.len() - i, 1int,
{
    let j = spec_ws(s, i);
    if !(i <= j < s.len()) {
        None
    } else if first && s[j] == '}' {
        Some((slots, j + 1))
    } else {
        match spec_parse_string(s, j) {
            None => None,
            Some((key, k)) => if !(j < k <= s.len()) {
                None
            } else {
                let j2 = spec_ws(s, k);
                if !(k <= j2 < s.len() && s[j2] == ':') {
                    None
                } else {
                    let upd = if key == "platform"@ {
                        if slots.platform is Some {
                            None
                        } else {
                            Some(
                                SpecTopSlots {
                                    platform: Some(j2 + 1),
                                    identifier: slots.identifier,
                                    kind: slots.kind,
                                    data: slots.data,
                                },
                            )
                        }
                    } else if key == "identifier"@ {
                        if slots.identifier is Some {
                            None
                        } else {
                            Some(
                                SpecTopSlots {
                                    platform: slots.platform,
                                    identifier: Some(j2 + 1),
                                    kind: slots.kind,
                                    data: slots.data,
                                },
                            )
                        }
                    } else if key == "t"@ {
                        if slots.kind is Some {
                            None
                        } else {
                            Some(
                                SpecTopSlots {
                                    platform: slots.platform,
                                    identifier: slots.identifier,
                                    kind: Some(j2 + 1),
                                    data: slots.data,
                                },
                            )
                        }
                    } else if key == "d"@ {
                        if slots.data is Some {
                            None
                        } else {
                            Some(
                                SpecTopSlots {
                                    platform: slots.platform,
                                    identifier: slots.identifier,
                                    kind: slots.kind,
                                    data: Some(j2 + 1),
                                },
                            )
                        }
                    } else {
                        Some(slots)
                    };
                    match upd {
                        None => None,
                        Some(slots2) => match spec_skip_value(s, j2 + 1) {
                            None => None,
                            Some(k2) => if !(j2 < k2 <= s.len()) {
                                None
                            } else {
                                spec_top_tail(s, k2, slots2)
                            },
                        },
                    }
                }
            },
        }
    }
}

/// The whole document: one top-level object, then only whitespace to the end.
pub open spec fn spec_scan_top(s: Seq<char>) -> Option<SpecTopSlots> {
    let j = spec_ws(s, 0);
    if !(0 <= j < s.len() && s[j] == '{') {
        None
    } else {
        match spec_top_members(
            s,
            j + 1,
            true,
            SpecTopSlots { platform: None, identifier: None, kind: None, data: None },
        ) {
            None => None,
            Some((slots, end)) => if spec_ws(s, end) == s.len() {
                Some(slots)
            } else {
                None
            },
        }
    }
}

/// The platform tag's value; the tag set is closed.
pub open spec fn spec_platform_of(s: Seq<char>, slots: SpecTopSlots) -> Option<Platform> {
    match slots.platform {
        None => None,
        Some(pos) => match spec_string_at(s, pos) {
            None => None,
            Some(v) => if v == "eludris"@ {
                Some(Platform::Eludris)
            } else if v == "discord"@ {
                Some(Platform::Discord)
            } else {
                None
            },
        },
    }
}

/// The identifier member's value; an absent member means an empty identifier.
pub open spec fn spec_identifier_of(s: Seq<char>, slots: SpecTopSlots) -> Option<Seq<char>> {
    match slots.identifier {
        None => Some(Seq::empty()),
        Some(pos) => spec_string_at(s, pos),
    }
}

/// The payload variant selected by the kind tag. A message creation requires a
/// well-formed payload member; the other recognized kinds and unknown kinds
/// carry nothing the engine reads.
pub open spec fn spec_data_of(s: Seq<char>, slots: SpecTopSlots, kind: Seq<char>) -> Option<
    SpecEventData,
> {
    if kind == "MessageCreate"@ {
        match slots.data {
            None => None,
            Some(pos) => match spec_parse_msg(s, spec_ws(s, pos)) {
                None => None,
                Some((m, k)) => Some(SpecEventData::MessageCreate(m)),
            },
        }
    } else if kind == "ChannelPinsUpdate"@ {
        Some(SpecEventData::ChannelPinsUpdate)
    } else if kind == "ChannelUpdate"@ {
        Some(SpecEventData::ChannelUpdate)
    } else if kind == "GuildEmojisUpdate"@ {
        Some(SpecEventData::GuildEmojisUpdate)
    } else if kind == "GuildStickersUpdate"@ {
        Some(SpecEventData::GuildStickersUpdate)
    } else if kind == "MessageDelete"@ {
        Some(SpecEventData::MessageDelete)
    } else if kind == "MessageDeleteBulk"@ {
        Some(SpecEventData::MessageDeleteBulk)
    } else if kind == "MessageUpdate"@ {
        Some(SpecEventData::MessageUpdate)
    } else if kind == "ReactionAdd"@ {
        Some(SpecEventData::ReactionAdd)
    } else if kind == "ReactionRemove"@ {
        Some(SpecEventData::ReactionRemove)
    } else if kind == "ReactionRemoveAll"@ {
        Some(SpecEventData::ReactionRemoveAll)
    } else if kind == "ReactionRemoveEmoji"@ {
        Some(SpecEventData::ReactionRemoveEmoji)
    } else {
        Some(SpecEventData::Unhandled)
    }
}

/// The event a well-formed document denotes, `None` when the text is not a
/// well-formed event document.
pub open spec fn spec_decode_chars(s: Seq<char>) -> Option<SpecEvent> {
    match spec_scan_top(s) {
        None => None,
        Some(slots) => match spec_platform_of(s, slots) {
            None => None,
            Some(p) => match spec_identifier_of(s, slots) {
                None => None,
                Some(id) => match slots.kind {
                    None => None,
                    Some(kpos) => match spec_string_at(s, kpos) {
                        None => None,
                        Some(t) => match spec_data_of(s, slots, t) {
                            None => None,
                            Some(d) => Some(SpecEvent { platform: p, identifier: id, data: d }),
                        },
                    },
                },
            },
        },
    }
}

fn top_tail(s: &Vec<char>, i: usize, slots: TopSlots) -> (r: Option<(TopSlots, usize)>)
    requires
        i <= s@.len(),
        slots_bounded(slots@, s@.len() as int),
    ensures
        match r {
            Some((sl, k)) => spec_top_tail(s@, i as int, slots@) == Some((sl@, k as int)) && i < k
                <= s@.len() && slots_bounded(sl@, s@.len() as int),
            None => spec_top_tail(s@, i as int, slots@) is None,
        },
    decreases s@.len() - i, 0int,
{
    let j = ws(s, i);
    if j >= s.len() {
        return None;
    }
    if s[j] == '}' {
        Some((slots, j + 1))
    } else if s[j] == ',' {
        top_members(s, j + 1, false, slots)
    } else {
        None
    }
}

fn top_members(s: &Vec<char>, i: usize, first: bool, slots: TopSlots) -> (r: Option<
    (TopSlots, usize),
>)
    requires
        i <= s@.len(),
        slots_bounded(slots@, s@.len() as int),
    ensures
        match r {
            Some((sl, k)) => spec_top_members(s@, i as int, first, slots@) == Some(
                (sl@, k as int),
            ) && i < k <= s@.len() && slots_bounded(sl@, s@.len() as int),
            None => spec_top_members(s@, i as int, first, slots@) is None,
        },
    decreases s@.len() - i, 1int,
{
    let j = ws(s, i);
    if j >= s.len() {
        return None;
    }
    if first && s[j] == '}' {
        return Some((slots, j + 1));
    }
    match parse_string(s, j) {
        None => None,
        Some((key, k)) => {
            let j2 = ws(s, k);
            if j2 >= s.len() || s[j2] != ':' {
                return None;
            }
            let upd: Option<TopSlots> = if eq_chars_str(&key, "platform") {
                if slots.platform.is_some() {
                    None
                } else {
                    Some(
                        TopSlots {
                            platform: Some(j2 + 1),
                            identifier: slots.identifier,
                            kind: slots.kind,
                            data: slots.data,
                        },
                    )
                }
            } else if eq_chars_str(&key, "identifier") {
                if slots.identifier.is_some() {
                    None
                } else {
                    Some(
                        TopSlots {
                            platform: slots.platform,
                            identifier: Some(j2 + 1),
                            kind: slots.kind,
                            data: slots.data,
                        },
                    )
                }
            } else if eq_chars_str(&key, "t") {
                if slots.kind.is_some() {
                    None
                } else {
                    Some(
                        TopSlots {
                            platform: slots.platform,
                            identifier: slots.identifier,
                            kind: Some(j2 + 1),
                            data: slots.data,
                        },
                    )
                }
            } else if eq_chars_str(&key, "d") {
                if slots.data.is_some() {
                    None
                } else {
                    Some(
                        TopSlots {
                            platform: slots.platform,
                            identifier: slots.identifier,
                            kind: slots.kind,
                            data: Some(j2 + 1),
                        },
                    )
                }
            } else {
                Some(
                    TopSlots {
                        platform: slots.platform,
                        identifier: slots.identifier,
                        kind: slots.kind,
                        data: slots.data,
                    },
                )
            };
            match upd {
                None => None,
                Some(slots2) => match skip_value(s, j2 + 1) {
                    None => None,
                    Some(k2) => top_tail(s, k2, slots2),
                },
            }
        },
    }
}

fn scan_top(s: &Vec<char>) -> (r: Option<TopSlots>)
    ensures
        match r {
            Some(sl) => spec_scan_top(s@) == Some(sl@) && slots_bounded(sl@, s@.len() as int),
            None => spec_scan_top(s@) is None,
        },
{
    let j = ws(s, 0);
    if j >= s.len() || s[j] != '{' {
        return None;
    }
    let empty = TopSlots { platform: None, identifier: None, kind: None, data: None };
    match top_members(s, j + 1, true, empty) {
        None => None,
        Some((slots, end)) => {
            let e2 = ws(s, end);
            if e2 == s.len() {
                Some(slots)
            } else {
                None
            }
        },
    }
}

/// The string value of the member whose value starts at `pos`.
fn string_at(s: &Vec<char>, pos: usize) -> (r: Option<Vec<char>>)
    requires
        pos <= s@.len(),
    ensures
        match r {
            Some(v) => spec_string_at(s@, pos as int) == Some(v@),
            None => spec_string_at(s@, pos as int) is None,
        },
{
    let j = ws(s, pos);
    match parse_string(s, j) {
        None => None,
        Some((v, _k)) => Some(v),
    }
}

fn decode_chars(s: &Vec<char>) -> (r: Option<Event>)
    ensures
        match r {
            Some(e) => spec_decode_chars(s@) == Some(e@),
            None => spec_decode_chars(s@) is None,
        },
{
    let slots = match scan_top(s) {
        None => {
            return None;
        },
        Some(sl) => sl,
    };
    let platform = match slots.platform {
        None => {
            return None;
        },
        Some(pos) => match string_at(s, pos) {
            None => {
                return None;
            },
            Some(v) => if eq_chars_str(&v, "eludris") {
                Platform::Eludris
            } else if eq_chars_str(&v, "discord") {
                Platform::Discord
            } else {
                return None;
            },
        },
    };
    let identifier: String = match slots.identifier {
        None => String::new(),
        Some(pos) => match string_at(s, pos) {
            None => {
                return None;
            },
            Some(v) => string_from_chars(&v),
        },
    };
    let kind: Vec<char> = match slots.kind {
        None => {
            return None;
        },
        Some(pos) => match string_at(s, pos) {
            None => {
                return None;
            },
            Some(v) => v,
        },
    };
    let data: EventData = if eq_chars_str(&kind, "MessageCreate") {
        match slots.data {
            None => {
                return None;
            },
            Some(pos) => {
                let jv = ws(s, pos);
                match parse_msg(s, jv) {
                    None => {
                        return None;
                    },
                    Some((m, _k)) => EventData::MessageCreate(m),
                }
            },
        }
    } else if eq_chars_str(&kind, "ChannelPinsUpdate") {
        EventData::ChannelPinsUpdate
    } else if eq_chars_str(&kind, "ChannelUpdate") {
        EventData::ChannelUpdate
    } else if eq_chars_str(&kind, "GuildEmojisUpdate") {
        EventData::GuildEmojisUpdate
    } else if eq_chars_str(&kind, "GuildStickersUpdate") {
        EventData::GuildStickersUpdate
    } else if eq_chars_str(&kind, "MessageDelete") {
        EventData::MessageDelete
    } else if eq_chars_str(&kind, "MessageDeleteBulk") {
        EventData::MessageDeleteBulk
    } else if eq_chars_str(&kind, "MessageUpdate") {
        EventData::MessageUpdate
    } else if eq_chars_str(&kind, "ReactionAdd") {
        EventData::ReactionAdd
    } else if eq_chars_str(&kind, "ReactionRemove") {
        EventData::ReactionRemove
    } else if eq_chars_str(&kind, "ReactionRemoveAll") {
        EventData::ReactionRemoveAll
    } else if eq_chars_str(&kind, "ReactionRemoveEmoji") {
        EventData::ReactionRemoveEmoji
    } else {
        EventData::Unhandled
    };
    Some(Event { platform, identifier, data })
}

/// Decode the text of one bus payload into an event. Fails with a schema
/// error exactly when the text is not a well-formed event document.
pub fn decode_text(s: &str) -> (r: Result<Event, DecodeError>)
    ensures
        match r {
            Ok(e) => spec_decode_chars(s@) == Some(e@),
            Err(err) => err == DecodeError::Schema && spec_decode_chars(s@) is None,
        },
{
    let v = chars_of_str(s);
    match decode_chars(&v) {
        Some(e) => Ok(e),
        None => Err(DecodeError::Schema),
    }
}

/// Decode one raw bus payload: an encoding error exactly when the bytes are
/// not valid UTF-8 text, a schema error exactly when the text is not a
/// well-formed event document, and otherwise the event the document denotes.
pub fn decode(bytes: &[u8]) -> (r: Result<Event, DecodeError>)
    ensures
        match r {
            Ok(e) => valid_utf8(bytes@) && spec_decode_chars(decode_utf8(bytes@)) == Some(e@),
            Err(err) => if err == DecodeError::Encoding {
                !valid_utf8(bytes@)
            } else {
                err == DecodeError::Schema && valid_utf8(bytes@) && spec_decode_chars(
                    decode_utf8(bytes@),
                ) is None
            },
        },
{
    match utf8_to_string(bytes) {
        None => Err(DecodeError::Encoding),
        Some(text) => decode_text(text.as_str()),
    }
}

} // verus!

