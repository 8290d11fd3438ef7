//! The message transformer: a pure function from a message-creation payload to
//! the outbound display name and final text body.
//!
//! The display name is the author behind a fixed prefix, truncated to the cap;
//! the first reply (if any) is quoted line by line and prepended together with
//! a mention of the referenced author; attachments are joined with newlines
//! and appended behind exactly one separating newline when there is content to
//! separate from; an empty final body means the event is skipped.

use crate::event::MessagePayload;
use crate::event::SpecMessagePayload;
use crate::event::SpecReply;
use crate::text::append_chars;
use crate::text::append_str_chars;
use crate::text::chars_of_str;
use crate::text::string_from_chars;
use vstd::prelude::*;

verus! {

/// Display names derived by the bridge are capped at this many characters.
pub open spec fn name_limit() -> int {
    32
}

/// Truncate a name to the display-name cap, counted in characters.
pub open spec fn spec_truncate_name(s: Seq<char>) -> Seq<char> {
    if s.len() > name_limit() {
        s.take(name_limit())
    } else {
        s
    }
}

/// The display name: the author behind the bridge prefix, truncated.
pub open spec fn spec_display_name(author: Seq<char>) -> Seq<char> {
    spec_truncate_name("Bridge-"@ + author)
}

/// First position at or after `i` holding a newline (or the end).
pub open spec fn spec_find_nl(s: Seq<char>, i: int) -> int
    decreases s.len() - i,
{
    if 0 <= i < s.len() {
        if s[i] == '\n' {
            i
        } else {
            spec_find_nl(s, i + 1)
        }
    } else {
        i
    }
}

/// A line with a trailing carriage return stripped: line splitting treats a
/// carriage return directly before the newline as part of the terminator.
pub open spec fn spec_strip_cr(l: Seq<char>) -> Seq<char> {
    if l.len() > 0 && l[l.len() - 1] == '\r' {
        l.take(l.len() - 1)
    } else {
        l
    }
}

/// The lines of `s` from position `i`: split at newlines, a final line
/// terminator ends the text without starting a new line, and a line without a
/// terminator keeps its characters as they stand.
pub open spec fn spec_lines_from(s: Seq<char>, i: int) -> Seq<Seq<char>>
    decreases s.len() - i,
{
    if !(0 <= i < s.len()) {
        Seq::empty()
    } else {
        let k = spec_find_nl(s, i);
        if !(i <= k < s.len()) {
            seq![s.subrange(i, s.len() as int)]
        } else {
            seq![spec_strip_cr(s.subrange(i, k))] + spec_lines_from(s, k + 1)
        }
    }
}

/// The lines of `s`.
pub open spec fn spec_lines(s: Seq<char>) -> Seq<Seq<char>> {
    spec_lines_from(s, 0)
}

/// The lines from position `i` on, each behind the quote marker, joined with
/// newlines.
pub open spec fn spec_quote_join(ls: Seq<Seq<char>>, i: int) -> Seq<char>
    decreases ls.len() - i,
{
    if !(0 <= i < ls.len()) {
        Seq::empty()
    } else if i == ls.len() - 1 {
        "> "@ + ls[i]
    } else {
        "> "@ + ls[i] + seq!['\n'] + spec_quote_join(ls, i + 1)
    }
}

/// The quoted block of a referenced message's content: each of its lines
/// independently behind the quote marker.
pub open spec fn spec_quote_block(content: Seq<char>) -> Seq<char> {
    spec_quote_join(spec_lines(content), 0)
}

/// The block a reply prepends: the quoted content, a newline, and a mention of
/// the referenced author truncated to the cap without a prefix.
pub open spec fn spec_reply_block(r: SpecReply) -> Seq<char> {
    spec_quote_block(r.content) + seq!['\n', '@'] + spec_truncate_name(r.author)
}

/// The texts from position `i` on, joined with newlines.
pub open spec fn spec_join_from(ls: Seq<Seq<char>>, i: int) -> Seq<char>
    decreases ls.len() - i,
{
    if !(0 <= i < ls.len()) {
        Seq::empty()
    } else if i == ls.len() - 1 {
        ls[i]
    } else {
        ls[i] + seq!['\n'] + spec_join_from(ls, i + 1)
    }
}

/// The content after reply quoting: only the first reply is rendered, and its
/// block always precedes the original text.
pub open spec fn spec_content_with_reply(m: SpecMessagePayload) -> Seq<char> {
    if m.replies.len() > 0 {
        seq!['\n'] + spec_reply_block(m.replies[0]) + seq!['\n'] + m.content
    } else {
        m.content
    }
}

/// The final body: the joined attachment block is appended, behind exactly one
/// separating newline when there is content to separate from.
pub open spec fn spec_body(m: SpecMessagePayload) -> Seq<char> {
    let base = spec_content_with_reply(m);
    let att = spec_join_from(m.attachments, 0);
    if att.len() == 0 {
        base
    } else if base.len() == 0 {
        att
    } else {
        base + seq!['\n'] + att
    }
}

/// The transformer's result: the display name and the body, or nothing when
/// the body came out empty, in which case the event is dropped without error.
pub open spec fn spec_transform(m: SpecMessagePayload) -> Option<(Seq<char>, Seq<char>)> {
    if spec_body(m).len() == 0 {
        None
    } else {
        Some((spec_display_name(m.author), spec_body(m)))
    }
}

fn truncate_name_chars(v: &mut Vec<char>)
    ensures
        final(v)@ == spec_truncate_name(old(v)@),
{
    if v.len() > 32 {
        v.truncate(32);
        proof {
            assert(v@ =~= old(v)@.take(32));
        }
    }
}

fn name_chars(author: &str) -> (v: Vec<char>)
    ensures
        v@ == spec_display_name(author@),
{
    let mut v: Vec<char> = Vec::new();
    append_str_chars(&mut v, "Bridge-");
    append_str_chars(&mut v, author);
    proof {
        assert(v@ =~= "Bridge-"@ + author@);
    }
    truncate_name_chars(&mut v);
    v
}

fn mention_chars(author: &str) -> (v: Vec<char>)
    ensures
        v@ == spec_truncate_name(author@),
{
    let mut v: Vec<char> = Vec::new();
    append_str_chars(&mut v, author);
    truncate_name_chars(&mut v);
    v
}

fn find_nl(s: &Vec<char>, i: usize) -> (k: usize)
    requires
        i <= s@.len(),
    ensures
        k as int == spec_find_nl(s@, i as int),
        i <= k <= s@.len(),
    decreases s@.len() - i,
{
    if i < s.len() {
        if s[i] == '\n' {
            i
        } else {
            find_nl(s, i + 1)
        }
    } else {
        i
    }
}

fn subvec(s: &Vec<char>, from: usize, to: usize) -> (r: Vec<char>)
    requires
        from <= to <= s@.len(),
    ensures
        r@ == s@.subrange(from as int, to as int),
{
    let mut r: Vec<char> = Vec::new();
    let mut i: usize = from;
    while i < to
        invariant
            from <= i <= to <= s@.len(),
            r@ =~= s@.subrange(from as int, i as int),
        decreases to - i,
    {
        r.push(s[i]);
        i = i + 1;
        proof {
            assert(r@ =~= s@.subrange(from as int, i as int));
        }
    }
    r
}

fn strip_cr(l: Vec<char>) -> (r: Vec<char>)
    ensures
        r@ == spec_strip_cr(l@),
{
    let mut r = l;
    if r.len() > 0 && r[r.len() - 1] == '\r' {
        let _last = r.pop();
        proof {
            assert(r@ =~= l@.take(l@.len() - 1));
        }
    }
    r
}

fn lines_from(s: &Vec<char>, i: usize) -> (r: Vec<Vec<char>>)
    requires
        i <= s@.len(),
    ensures
        r@.map_values(|l: Vec<char>| l@) == spec_lines_from(s@, i as int),
    decreases s@.len() - i,
{
    if i >= s.len() {
        let r: Vec<Vec<char>> = Vec::new();
        proof {
            assert(r@.map_values(|l: Vec<char>| l@) =~= Seq::<Seq<char>>::empty());
        }
        return r;
    }
    let k = find_nl(s, i);
    if k >= s.len() {
        let line = subvec(s, i, s.len());
        let ghost gline = line@;
        let mut r: Vec<Vec<char>> = Vec::new();
        r.push(line);
        proof {
            assert(r@.map_values(|l: Vec<char>| l@) =~= seq![gline]);
        }
        r
    } else {
        let line = strip_cr(subvec(s, i, k));
        let ghost gline = line@;
        let mut rest = lines_from(s, k + 1);
        let ghost grest = rest@.map_values(|l: Vec<char>| l@);
        rest.insert(0, line);
        proof {
            assert(rest@.map_values(|l: Vec<char>| l@) =~= seq![gline] + grest);
        }
        rest
    }
}

fn quote_join(ls: &Vec<Vec<char>>, i: usize) -> (r: Vec<char>)
    requires
        i <= ls@.len(),
    ensures
        r@ == spec_quote_join(ls@.map_values(|l: Vec<char>| l@), i as int),
    decreases ls@.len() - i,
{
    if i >= ls.len() {
        let r: Vec<char> = Vec::new();
        proof {
            assert(r@ =~= Seq::<char>::empty());
        }
        return r;
    }
    let mut r: Vec<char> = Vec::new();
    append_str_chars(&mut r, "> ");
    append_chars(&mut r, &ls[i]);
    if i + 1 < ls.len() {
        r.push('\n');
        let rest = quote_join(ls, i + 1);
        append_chars(&mut r, &rest);
        proof {
            let gls = ls@.map_values(|l: Vec<char>| l@);
            assert(r@ =~= "> "@ + gls[i as int] + seq!['\n'] + spec_quote_join(gls, i + 1));
        }
    } else {
        proof {
            let gls = ls@.map_values(|l: Vec<char>| l@);
            assert(r@ =~= "> "@ + gls[i as int]);
        }
    }
    r
}

fn join_strings(ls: &Vec<String>, i: usize) -> (r: Vec<char>)
    requires
        i <= ls@.len(),
    ensures
        r@ == spec_join_from(ls@.map_values(|a: String| a@), i as int),
    decreases ls@.len() - i,
{
    if i >= ls.len() {
        let r: Vec<char> = Vec::new();
        proof {
            assert(r@ =~= Seq::<char>::empty());
        }
        return r;
    }
    let mut r: Vec<char> = Vec::new();
    append_str_chars(&mut r, ls[i].as_str());
    if i + 1 < ls.len() {
        r.push('\n');
        let rest = join_strings(ls, i + 1);
        append_chars(&mut r, &rest);
        proof {
            let gls = ls@.map_values(|a: String| a@);
            assert(r@ =~= gls[i as int] + seq!['\n'] + spec_join_from(gls, i + 1));
        }
    } else {
        proof {
            let gls = ls@.map_values(|a: String| a@);
            assert(r@ =~= gls[i as int]);
        }
    }
    r
}

/// Turn a message-creation payload into the outbound display name and final
/// body, or nothing when the body comes out empty.
pub fn transform(m: &MessagePayload) -> (r: Option<(String, String)>)
    ensures
        match r {
            Some((name, body)) => spec_transform(m@) == Some((name@, body@)),
            None => spec_transform(m@) is None,
        },
{
    let name = name_chars(m.author.as_str());
    let mut content: Vec<char> = Vec::new();
    if m.replies.len() > 0 {
        let rc = chars_of_str(m.replies[0].content.as_str());
        let lines = lines_from(&rc, 0);
        let quoted = quote_join(&lines, 0);
        let mention = mention_chars(m.replies[0].author.as_str());
        content.push('\n');
        append_chars(&mut content, &quoted);
        content.push('\n');
        content.push('@');
        append_chars(&mut content, &mention);
        content.push('\n');
        append_str_chars(&mut content, m.content.as_str());
        proof {
            assert(m@.replies[0] == m.replies@[0]@);
            assert(content@ =~= spec_content_with_reply(m@));
        }
    } else {
        append_str_chars(&mut content, m.content.as_str());
        proof {
            assert(content@ =~= spec_content_with_reply(m@));
        }
    }
    let att = join_strings(&m.attachments, 0);
    proof {
        assert(att@ == spec_join_from(m@.attachments, 0));
    }
    if att.len() > 0 {
        if content.len() > 0 {
            content.push('\n');
            append_chars(&mut content, &att);
            proof {
                assert(content@ =~= spec_body(m@));
            }
        } else {
            append_chars(&mut content, &att);
            proof {
                assert(content@ =~= spec_body(m@));
            }
        }
    } else {
        proof {
            assert(content@ =~= spec_body(m@));
        }
    }
    if content.len() == 0 {
        None
    } else {
        Some((string_from_chars(&name), string_from_chars(&content)))
    }
}

/// A message with no replies and no attachments keeps its content as the body;
/// when that content is also empty the message is skipped.
pub proof fn lemma_plain_message(m: SpecMessagePayload)
    requires
        m.replies.len() == 0,
        m.attachments.len() == 0,
    ensures
        m.content.len() == 0 ==> spec_transform(m) is None,
        m.content.len() > 0 ==> spec_transform(m) == Some(
            (spec_display_name(m.author), m.content),
        ),
{
}

/// An author longer than the cap: the display name is exactly the first 32
/// characters of the prefixed author, and the reply mention is exactly the
/// first 32 characters of the referenced author, with no prefix added.
pub proof fn lemma_name_truncation(author: Seq<char>)
    requires
        author.len() > 32,
    ensures
        spec_display_name(author) == ("Bridge-"@ + author).take(32),
        spec_truncate_name(author) == author.take(32),
{
    reveal_strlit("Bridge-");
}

proof fn lemma_find_nl_props(s: Seq<char>, i: int)
    requires
        0 <= i <= s.len(),
    ensures
        ({
            let k = spec_find_nl(s, i);
            &&& i <= k <= s.len()
            &&& forall|j: int| i <= j < k ==> s[j] != '\n'
            &&& (k < s.len() ==> s[k] == '\n')
        }),
    decreases s.len() - i,
{
    if i < s.len() && s[i] != '\n' {
        lemma_find_nl_props(s, i + 1);
    }
}

/// Reply quoting works line by line: a two-line content, neither line holding
/// a newline and the first not ending in a carriage return, is quoted as the
/// two lines each independently behind the quote marker.
pub proof fn lemma_quote_two_lines(a: Seq<char>, b: Seq<char>)
    requires
        forall|j: int| 0 <= j < a.len() ==> a[j] != '\n',
        forall|j: int| 0 <= j < b.len() ==> b[j] != '\n',
        a.len() == 0 || a[a.len() - 1] != '\r',
        b.len() > 0,
    ensures
        spec_quote_block(a + seq!['\n'] + b) == "> "@ + a + seq!['\n'] + "> "@ + b,
{
    let s = a + seq!['\n'] + b;
    lemma_find_nl_props(s, 0);
    let k = spec_find_nl(s, 0);
    assert(s[a.len() as int] == '\n');
    assert(k == a.len()) by {
        if k < a.len() {
            assert(s[k] == a[k]);
        }
        if k > a.len() {
            assert(s[a.len() as int] != '\n');
        }
    }
    assert(s.subrange(0, k) =~= a);
    assert(spec_strip_cr(a) == a);
    lemma_find_nl_props(s, a.len() as int + 1);
    let k2 = spec_find_nl(s, a.len() as int + 1);
    assert(k2 == s.len()) by {
        if k2 < s.len() {
            assert(s[k2] == b[k2 - a.len() - 1]);
        }
    }
    assert(s.subrange(a.len() as int + 1, s.len() as int) =~= b);
    assert(spec_lines_from(s, a.len() as int + 1) =~= seq![b]);
    assert(spec_lines(s) =~= seq![a, b]);
    assert(spec_quote_join(seq![a, b], 1) == "> "@ + b);
    assert(spec_quote_block(s) =~= "> "@ + a + seq!['\n'] + ("> "@ + b));
    assert("> "@ + a + seq!['\n'] + ("> "@ + b) =~= "> "@ + a + seq!['\n'] + "> "@ + b);
}

/// Quoting works on each line independently: quoting a list of lines is the
/// same as prefixing every line with the quote marker and joining the results
/// with newlines.
pub proof fn lemma_quote_is_per_line(ls: Seq<Seq<char>>, i: int)
    requires
        0 <= i <= ls.len(),
    ensures
        spec_quote_join(ls, i) == spec_join_from(ls.map_values(|l: Seq<char>| "> "@ + l), i),
    decreases ls.len() - i,
{
    let pls = ls.map_values(|l: Seq<char>| "> "@ + l);
    if i < ls.len() {
        lemma_quote_is_per_line(ls, i + 1);
        assert(pls[i] == "> "@ + ls[i]);
    }
}

/// Attachment inlining never produces a leading blank line when the content
/// was empty — the body is then exactly the attachment block — and it inserts
/// exactly one separating newline when the content was non-empty.
pub proof fn lemma_attachment_inlining(m: SpecMessagePayload)
    requires
        m.replies.len() == 0,
        spec_join_from(m.attachments, 0).len() > 0,
    ensures
        m.content.len() == 0 ==> spec_body(m) == spec_join_from(m.attachments, 0),
        m.content.len() > 0 ==> spec_body(m) == m.content + seq!['\n'] + spec_join_from(
            m.attachments,
            0,
        ),
{
}

} // verus!
