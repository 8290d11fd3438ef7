//! The textual grammar bus payloads are written in: a JSON-shaped surface
//! syntax. The `spec_` functions define the grammar mathematically over
//! character sequences; each executable function is proved to return exactly
//! what its spec counterpart describes. Positions index into the character
//! sequence; a parse result carries the position just past what was consumed.
//!
//! Escapes accept `\" \\ \/ \b \f \n \r \t` and `\uXXXX` for a Unicode scalar;
//! surrogate values are rejected.

use vstd::prelude::*;
use vstd::utf8::is_scalar;

verus! {

/// Relies on `char::from_u32` (core): returns `Some` exactly for Unicode
/// scalar values, and the returned character has the given scalar value.
pub assume_specification[ char::from_u32 ](v: u32) -> (r: Option<char>)
    ensures
        r is Some <==> is_scalar(v),
        r matches Some(c) ==> c as u32 == v,
;

/// JSON insignificant whitespace.
pub open spec fn is_ws_char(c: char) -> bool {
    c == ' ' || c == '\t' || c == '\n' || c == '\r'
}

/// First position at or after `i` holding a non-whitespace character (or the
/// end of the sequence).
pub open spec fn spec_ws(s: Seq<char>, i: int) -> int
    decreases s.len() - i,
{
    if 0 <= i < s.len() && is_ws_char(s[i]) {
        spec_ws(s, i + 1)
    } else {
        i
    }
}

pub fn ws(s: &Vec<char>, i: usize) -> (j: usize)
    requires
        i <= s@.len(),
    ensures
        j as int == spec_ws(s@, i as int),
        i <= j <= s@.len(),
    decreases s@.len() - i,
{
    if i < s.len() {
        let c = s[i];
        if c == ' ' || c == '\t' || c == '\n' || c == '\r' {
            return ws(s, i + 1);
        }
    }
    i
}

/// Value of a hexadecimal digit.
pub open spec fn spec_hex_val(c: char) -> Option<u32> {
    let u = c as u32;
    if 48 <= u <= 57 {
        Some((u - 48) as u32)
    } else if 97 <= u <= 102 {
        Some((u - 87) as u32)
    } else if 65 <= u <= 70 {
        Some((u - 55) as u32)
    } else {
        None
    }
}

pub fn hex_val(c: char) -> (r: Option<u32>)
    ensures
        r == spec_hex_val(c),
{
    let u = c as u32;
    if 48 <= u && u <= 57 {
        Some(u - 48)
    } else if 97 <= u && u <= 102 {
        Some(u - 87)
    } else if 65 <= u && u <= 70 {
        Some(u - 55)
    } else {
        None
    }
}

/// A `\uXXXX` escape: `i` is the position of the first hex digit. Yields the
/// denoted character and the position past the four digits; values outside the
/// Unicode scalar range (the surrogates) are rejected.
pub open spec fn spec_unicode_escape(s: Seq<char>, i: int) -> Option<(char, int)> {
    if 0 <= i && i + 4 <= s.len() {
        match (spec_hex_val(s[i]), spec_hex_val(s[i + 1])) {
            (Some(h0), Some(h1)) => match (spec_hex_val(s[i + 2]), spec_hex_val(s[i + 3])) {
                (Some(h2), Some(h3)) => {
                    let v = ((h0 * 4096 + h1 * 256 + h2 * 16 + h3) as u32);
                    if is_scalar(v) {
                        Some((v as char, i + 4))
                    } else {
                        None
                    }
                },
                _ => None,
            },
            _ => None,
        }
    } else {
        None
    }
}

pub fn unicode_escape(s: &Vec<char>, i: usize) -> (r: Option<(char, usize)>)
    requires
        i <= s@.len(),
    ensures
        match r {
            Some((c, j)) => spec_unicode_escape(s@, i as int) == Some((c, j as int)) && j <= s@.len(),
            None => spec_unicode_escape(s@, i as int) is None,
        },
{
    if s.len() - i < 4 {
        return None;
    }
    let h0 = hex_val(s[i]);
    let h1 = hex_val(s[i + 1]);
    let h2 = hex_val(s[i + 2]);
    let h3 = hex_val(s[i + 3]);
    match (h0, h1) {
        (Some(h0), Some(h1)) => match (h2, h3) {
            (Some(h2), Some(h3)) => {
                let v: u32 = h0 * 4096 + h1 * 256 + h2 * 16 + h3;
                match char::from_u32(v) {
                    Some(c) => {
                        proof {
                            vstd::utf8::char_u32_cast(c, v);
                        }
                        Some((c, i + 4))
                    },
                    None => None,
                }
            },
            _ => None,
        },
        _ => None,
    }
}

/// An escape sequence: `i` is the position of the backslash.
pub open spec fn spec_escape(s: Seq<char>, i: int) -> Option<(char, int)> {
    if 0 <= i && i + 1 < s.len() && s[i] == '\\' {
        let e = s[i + 1];
        if e == '"' {
            Some(('"', i + 2))
        } else if e == '\\' {
            Some(('\\', i + 2))
        } else if e == '/' {
            Some(('/', i + 2))
        } else if e == 'b' {
            Some(('\u{8}', i + 2))
        } else if e == 'f' {
            Some(('\u{c}', i + 2))
        } else if e == 'n' {
            Some(('\n', i + 2))
        } else if e == 'r' {
            Some(('\r', i + 2))
        } else if e == 't' {
            Some(('\t', i + 2))
        } else if e == 'u' {
            spec_unicode_escape(s, i + 2)
        } else {
            None
        }
    } else {
        None
    }
}

pub fn escape(s: &Vec<char>, i: usize) -> (r: Option<(char, usize)>)
    requires
        i <= s@.len(),
    ensures
        match r {
            Some((c, j)) => spec_escape(s@, i as int) == Some((c, j as int)) && i < j <= s@.len(),
            None => spec_escape(s@, i as int) is None,
        },
{
    if i < s.len() && s.len() - i >= 2 && s[i] == '\\' {
        let e = s[i + 1];
        if e == '"' {
            Some(('"', i + 2))
        } else if e == '\\' {
            Some(('\\', i + 2))
        } else if e == '/' {
            Some(('/', i + 2))
        } else if e == 'b' {
            Some(('\u{8}', i + 2))
        } else if e == 'f' {
            Some(('\u{c}', i + 2))
        } else if e == 'n' {
            Some(('\n', i + 2))
        } else if e == 'r' {
            Some(('\r', i + 2))
        } else if e == 't' {
            Some(('\t', i + 2))
        } else if e == 'u' {
            unicode_escape(s, i + 2)
        } else {
            None
        }
    } else {
        None
    }
}

/// The body of a string literal, after its opening quote. Yields the denoted
/// characters and the position past the closing quote. Unescaped control
/// characters are rejected.
pub open spec fn spec_string_body(s: Seq<char>, i: int) -> Option<(Seq<char>, int)>
    decreases s.len() - i,
{
    if !(0 <= i < s.len()) {
        None
    } else if s[i] == '"' {
        Some((Seq::empty(), i + 1))
    } else if s[i] == '\\' {
        match spec_escape(s, i) {
            None => None,
            Some((c, j)) => if i < j <= s.len() {
                match spec_string_body(s, j) {
                    None => None,
                    Some((rest, k)) => Some((seq![c] + rest, k)),
                }
            } else {
                None
            },
        }
    } else if (s[i] as u32) < 32 {
        None
    } else {
        match spec_string_body(s, i + 1) {
            None => None,
            Some((rest, k)) => Some((seq![s[i]] + rest, k)),
        }
    }
}

pub fn string_body(s: &Vec<char>, i: usize) -> (r: Option<(Vec<char>, usize)>)
    requires
        i <= s@.len(),
    ensures
        match r {
            Some((cs, k)) => spec_string_body(s@, i as int) == Some((cs@, k as int)) && i < k
                <= s@.len(),
            None => spec_string_body(s@, i as int) is None,
        },
    decreases s@.len() - i,
{
    if i >= s.len() {
        return None;
    }
    let c = s[i];
    if c == '"' {
        let cs: Vec<char> = Vec::new();
        return Some((cs, i + 1));
    }
    if c == '\\' {
        match escape(s, i) {
            None => None,
            Some((c2, j)) => match string_body(s, j) {
                None => None,
                Some((rest, k)) => {
                    let mut cs = rest;
                    cs.insert(0, c2);
                    proof {
                        assert(cs@ =~= seq![c2] + cs@.subrange(1, cs@.len() as int));
                    }
                    Some((cs, k))
                },
            },
        }
    } else if (c as u32) < 32 {
        None
    } else {
        match string_body(s, i + 1) {
            None => None,
            Some((rest, k)) => {
                let mut cs = rest;
                cs.insert(0, c);
                proof {
                    assert(cs@ =~= seq![c] + cs@.subrange(1, cs@.len() as int));
                }
                Some((cs, k))
            },
        }
    }
}

/// A string literal, opening quote at `i`.
pub open spec fn spec_parse_string(s: Seq<char>, i: int) -> Option<(Seq<char>, int)> {
    if 0 <= i < s.len() && s[i] == '"' {
        spec_string_body(s, i + 1)
    } else {
        None
    }
}

pub fn parse_string(s: &Vec<char>, i: usize) -> (r: Option<(Vec<char>, usize)>)
    requires
        i <= s@.len(),
    ensures
        match r {
            Some((cs, k)) => spec_parse_string(s@, i as int) == Some((cs@, k as int)) && i < k
                <= s@.len(),
            None => spec_parse_string(s@, i as int) is None,
        },
{
    if i < s.len() && s[i] == '"' {
        string_body(s, i + 1)
    } else {
        None
    }
}

pub open spec fn is_digit(c: char) -> bool {
    48 <= (c as u32) <= 57
}

/// End of the run of decimal digits starting at `i`.
pub open spec fn spec_digits(s: Seq<char>, i: int) -> int
    decreases s.len() - i,
{
    if 0 <= i < s.len() && is_digit(s[i]) {
        spec_digits(s, i + 1)
    } else {
        i
    }
}

pub fn digits(s: &Vec<char>, i: usize) -> (j: usize)
    requires
        i <= s@.len(),
    ensures
        j as int == spec_digits(s@, i as int),
        i <= j <= s@.len(),
    decreases s@.len() - i,
{
    if i < s.len() {
        let u = s[i] as u32;
        if 48 <= u && u <= 57 {
            return digits(s, i + 1);
        }
    }
    i
}

/// A number token: optional sign, integer digits, optional fraction and
/// exponent. Yields the position past the token.
pub open spec fn spec_skip_number(s: Seq<char>, i: int) -> Option<int> {
    if !(0 <= i < s.len()) {
        None
    } else {
        let j = if s[i] == '-' {
            i + 1
        } else {
            i
        };
        let k = spec_digits(s, j);
        if k <= j {
            None
        } else {
            let k2 = if k < s.len() && s[k] == '.' {
                let f = spec_digits(s, k + 1);
                if f <= k + 1 {
                    -1
                } else {
                    f
                }
            } else {
                k
            };
            if k2 < 0 {
                None
            } else {
                if k2 < s.len() && (s[k2] == 'e' || s[k2] == 'E') {
                    let e0 = if k2 + 1 < s.len() && (s[k2 + 1] == '+' || s[k2 + 1] == '-') {
                        k2 + 2
                    } else {
                        k2 + 1
                    };
                    let e1 = spec_digits(s, e0);
                    if e1 <= e0 {
                        None
                    } else {
                        Some(e1)
                    }
                } else {
                    Some(k2)
                }
            }
        }
    }
}

pub fn skip_number(s: &Vec<char>, i: usize) -> (r: Option<usize>)
    requires
        i <= s@.len(),
    ensures
        match r {
            Some(k) => spec_skip_number(s@, i as int) == Some(k as int) && i < k <= s@.len(),
            None => spec_skip_number(s@, i as int) is None,
        },
{
    if i >= s.len() {
        return None;
    }
    let j: usize = if s[i] == '-' {
        i + 1
    } else {
        i
    };
    if j > s.len() {
        return None;
    }
    let k = digits(s, j);
    if k <= j {
        return None;
    }
    let k2: usize = if k < s.len() && s[k] == '.' {
        let f = digits(s, k + 1);
        if f <= k + 1 {
            return None;
        }
        f
    } else {
        k
    };
    if k2 < s.len() && (s[k2] == 'e' || s[k2] == 'E') {
        let e0: usize = if k2 + 1 < s.len() && (s[k2 + 1] == '+' || s[k2 + 1] == '-') {
            k2 + 2
        } else {
            k2 + 1
        };
        let e1 = digits(s, e0);
        if e1 <= e0 {
            return None;
        }
        Some(e1)
    } else {
        Some(k2)
    }
}

/// Whether `lit` occurs in `s` starting at position `i`.
pub open spec fn spec_match_lit(s: Seq<char>, i: int, lit: Seq<char>) -> bool {
    0 <= i && i + lit.len() <= s.len() && s.subrange(i, i + lit.len() as int) == lit
}

pub fn match_lit(s: &Vec<char>, i: usize, lit: &Vec<char>) -> (r: bool)
    requires
        i <= s@.len(),
    ensures
        r == spec_match_lit(s@, i as int, lit@),
{
    let n = lit.len();
    let slen = s.len();
    if slen - i < n {
        proof {
            assert(!spec_match_lit(s@, i as int, lit@));
        }
        return false;
    }
    let mut k: usize = 0;
    while k < n
        invariant
            k <= n,
            n == lit@.len(),
            slen == s@.len(),
            i + n <= slen,
            forall|j: int| 0 <= j < k ==> s@[i + j] == lit@[j],
        decreases n - k,
    {
        if s[i + k] != lit[k] {
            proof {
                assert(s@.subrange(i as int, i + lit@.len() as int)[k as int] != lit@[k as int]);
            }
            return false;
        }
        k = k + 1;
    }
    proof {
        assert(s@.subrange(i as int, i + lit@.len() as int) =~= lit@);
    }
    true
}

/// Any value of the grammar, used where a document's member is recognized but
/// not acted on. Yields the position past the value. Leading whitespace is
/// consumed.
pub open spec fn spec_skip_value(s: Seq<char>, i: int) -> Option<int>
    decreases s.len() - i, 0int,
{
    let j = spec_ws(s, i);
    if !(i <= j < s.len()) {
        None
    } else {
        let c = s[j];
        if c == '"' {
            match spec_parse_string(s, j) {
                None => None,
                Some((v, k)) => Some(k),
            }
        } else if c == '{' {
            spec_skip_members(s, j + 1, true)
        } else if c == '[' {
            spec_skip_items(s, j + 1, true)
        } else if c == 't' {
            if spec_match_lit(s, j, seq!['t', 'r', 'u', 'e']) {
                Some(j + 4)
            } else {
                None
            }
        } else if c == 'f' {
            if spec_match_lit(s, j, seq!['f', 'a', 'l', 's', 'e']) {
                Some(j + 5)
            } else {
                None
            }
        } else if c == 'n' {
            if spec_match_lit(s, j, seq!['n', 'u', 'l', 'l']) {
                Some(j + 4)
            } else {
                None
            }
        } else if c == '-' || is_digit(c) {
            spec_skip_number(s, j)
        } else {
            None
        }
    }
}

/// The items of an array, after its opening bracket.
pub open spec fn spec_skip_items(s: Seq<char>, i: int, first: bool) -> Option<int>
    decreases s.len() - i, 1int,
{
    let j = spec_ws(s, i);
    if !(i <= j < s.len()) {
        None
    } else if first && s[j] == ']' {
        Some(j + 1)
    } else {
        match spec_skip_value(s, j) {
            None => None,
            Some(k) => if !(j < k <= s.len()) {
                None
            } else {
                let j2 = spec_ws(s, k);
                if !(k <= j2 < s.len()) {
                    None
                } else if s[j2] == ']' {
                    Some(j2 + 1)
                } else if s[j2] == ',' {
                    spec_skip_items(s, j2 + 1, false)
                } else {
                    None
                }
            },
        }
    }
}

/// The members of an object, after its opening brace.
pub open spec fn spec_skip_members(s: Seq<char>, i: int, first: bool) -> Option<int>
    decreases s.len() - i, 1int,
{
    let j = spec_ws(s, i);
    if !(i <= j < s.len()) {
        None
    } else if first && s[j] == '}' {
        Some(j + 1)
    } else {
        match spec_parse_string(s, j) {
            None => None,
            Some((key, k)) => if !(j < k <= s.len()) {
                None
            } else {
                let j2 = spec_ws(s, k);
                if !(k <= j2 < s.len() && s[j2] == ':') {
                    None
                } else {
                    match spec_skip_value(s, j2 + 1) {
                        None => None,
                        Some(k2) => if !(j2 < k2 <= s.len()) {
                            None
                        } else {
                            let j3 = spec_ws(s, k2);
                            if !(k2 <= j3 < s.len()) {
                                None
                            } else if s[j3] == '}' {
                                Some(j3 + 1)
                            } else if s[j3] == ',' {
                                spec_skip_members(s, j3 + 1, false)
                            } else {
                                None
                            }
                        },
                    }
                }
            },
        }
    }
}

pub fn skip_value(s: &Vec<char>, i: usize) -> (r: Option<usize>)
    requires
        i <= s@.len(),
    ensures
        match r {
            Some(k) => spec_skip_value(s@, i as int) == Some(k as int) && i < k <= s@.len(),
            None => spec_skip_value(s@, i as int) is None,
        },
    decreases s@.len() - i, 0int,
{
    let j = ws(s, i);
    if j >= s.len() {
        return None;
    }
    let c = s[j];
    if c == '"' {
        match parse_string(s, j) {
            None => None,
            Some((_v, k)) => Some(k),
        }
    } else if c == '{' {
        skip_members(s, j + 1, true)
    } else if c == '[' {
        skip_items(s, j + 1, true)
    } else if c == 't' {
        let lit: Vec<char> = vec!['t', 'r', 'u', 'e'];
        proof {
            assert(lit@ =~= seq!['t', 'r', 'u', 'e']);
        }
        if match_lit(s, j, &lit) {
            Some(j + 4)
        } else {
            None
        }
    } else if c == 'f' {
        let lit: Vec<char> = vec!['f', 'a', 'l', 's', 'e'];
        proof {
            assert(lit@ =~= seq!['f', 'a', 'l', 's', 'e']);
        }
        if match_lit(s, j, &lit) {
            Some(j + 5)
        } else {
            None
        }
    } else if c == 'n' {
        let lit: Vec<char> = vec!['n', 'u', 'l', 'l'];
        proof {
            assert(lit@ =~= seq!['n', 'u', 'l', 'l']);
        }
        if match_lit(s, j, &lit) {
            Some(j + 4)
        } else {
            None
        }
    } else {
        let u = c as u32;
        if c == '-' || (48 <= u && u <= 57) {
            skip_number(s, j)
        } else {
            None
        }
    }
}

pub fn skip_items(s: &Vec<char>, i: usize, first: bool) -> (r: Option<usize>)
    requires
        i <= s@.len(),
    ensures
        match r {
            Some(k) => spec_skip_items(s@, i as int, first) == Some(k as int) && i < k <= s@.len(),
            None => spec_skip_items(s@, i as int, first) is None,
        },
    decreases s@.len() - i, 1int,
{
    let j = ws(s, i);
    if j >= s.len() {
        return None;
    }
    if first && s[j] == ']' {
        return Some(j + 1);
    }
    match skip_value(s, j) {
        None => None,
        Some(k) => {
            let j2 = ws(s, k);
            if j2 >= s.len() {
                return None;
            }
            if s[j2] == ']' {
                Some(j2 + 1)
            } else if s[j2] == ',' {
                skip_items(s, j2 + 1, false)
            } else {
                None
            }
        },
    }
}

pub fn skip_members(s: &Vec<char>, i: usize, first: bool) -> (r: Option<usize>)
    requires
        i <= s@.len(),
    ensures
        match r {
            Some(k) => spec_skip_members(s@, i as int, first) == Some(k as int) && i < k
                <= s@.len(),
            None => spec_skip_members(s@, i as int, first) is None,
        },
    decreases s@.len() - i, 1int,
{
    let j = ws(s, i);
    if j >= s.len() {
        return None;
    }
    if first && s[j] == '}' {
        return Some(j + 1);
    }
    match parse_string(s, j) {
        None => None,
        Some((_key, k)) => {
            let j2 = ws(s, k);
            if j2 >= s.len() || s[j2] != ':' {
                return None;
            }
            match skip_value(s, j2 + 1) {
                None => None,
                Some(k2) => {
                    let j3 = ws(s, k2);
                    if j3 >= s.len() {
                        return None;
                    }
                    if s[j3] == '}' {
                        Some(j3 + 1)
                    } else if s[j3] == ',' {
                        skip_members(s, j3 + 1, false)
                    } else {
                        None
                    }
                },
            }
        },
    }
}

} // verus!
