//! The request side of the request/response adapter: decoding the inbound
//! payload into a [`CompileRequest`].
//!
//! The accepted payload is a JSON object with the single member `code` and
//! a string value, with any amount of JSON whitespace around the tokens.
//! The value may use the standard string escapes, including `\u` escapes
//! with surrogate pairs. An empty body means no request was provided;
//! every other deviation is a deserialization failure. The reading is
//! deliberately strict: the wire contract names exactly one member, so a
//! payload carrying additional members is rejected rather than having
//! them ignored.

use vstd::prelude::*;
use vstd::string::*;

use crate::errors::Error;
use crate::wire::CompileRequest;

verus! {

/// JSON whitespace.
pub open spec fn is_json_ws(c: char) -> bool {
    c == ' ' || c == '\t' || c == '\n' || c == '\r'
}

/// The first index at or after `i` that does not hold JSON whitespace.
pub open spec fn ws_end(s: Seq<char>, i: int) -> int
    decreases s.len() - i,
{
    if i < 0 || i >= s.len() {
        i
    } else if is_json_ws(s[i]) {
        ws_end(s, i + 1)
    } else {
        i
    }
}

/// A hexadecimal digit.
pub open spec fn is_hex_digit(c: char) -> bool {
    ('0' <= c && c <= '9') || ('a' <= c && c <= 'f') || ('A' <= c && c <= 'F')
}

/// The value of a hexadecimal digit.
pub open spec fn hex_val(c: char) -> int {
    if '0' <= c && c <= '9' {
        c as u32 - 48
    } else if 'a' <= c && c <= 'f' {
        c as u32 - 87
    } else {
        c as u32 - 55
    }
}

/// Four hexadecimal digits stand at `i`.
pub open spec fn hex4_at(s: Seq<char>, i: int) -> bool {
    &&& 0 <= i
    &&& i + 4 <= s.len()
    &&& is_hex_digit(s[i])
    &&& is_hex_digit(s[i + 1])
    &&& is_hex_digit(s[i + 2])
    &&& is_hex_digit(s[i + 3])
}

/// The value of the four hexadecimal digits at `i`.
pub open spec fn hex4_val(s: Seq<char>, i: int) -> int {
    4096 * hex_val(s[i]) + 256 * hex_val(s[i + 1]) + 16 * hex_val(s[i + 2]) + hex_val(s[i + 3])
}

/// The character denoted by a one-letter escape, if the letter denotes one.
pub open spec fn simple_unescape(c: char) -> Option<char> {
    if c == '"' {
        Some('"')
    } else if c == '\\' {
        Some('\\')
    } else if c == '/' {
        Some('/')
    } else if c == 'b' {
        Some('\u{8}')
    } else if c == 'f' {
        Some('\u{c}')
    } else if c == 'n' {
        Some('\n')
    } else if c == 'r' {
        Some('\r')
    } else if c == 't' {
        Some('\t')
    } else {
        None
    }
}

/// The escape sequence starting at `i` (the position after the backslash):
/// the character it denotes and the position after the sequence. A `\u`
/// escape denotes a basic-plane character directly; a high surrogate must
/// be followed by a `\u` low surrogate, and the pair denotes one
/// supplementary-plane character.
pub open spec fn escape_at(s: Seq<char>, i: int) -> Option<(char, int)> {
    if !(0 <= i && i < s.len()) {
        None
    } else {
        match simple_unescape(s[i]) {
            Some(c) => Some((c, i + 1)),
            None => {
                if s[i] == 'u' && hex4_at(s, i + 1) {
                    let v = hex4_val(s, i + 1);
                    if v < 0xD800 || v > 0xDFFF {
                        Some((((v as u32) as char), i + 5))
                    } else if v <= 0xDBFF {
                        if i + 6 < s.len() && s[i + 5] == '\\' && s[i + 6] == 'u' && hex4_at(
                            s,
                            i + 7,
                        ) {
                            let w = hex4_val(s, i + 7);
                            if 0xDC00 <= w && w <= 0xDFFF {
                                Some(
                                    (
                                        (((0x10000 + (v - 0xD800) * 0x400 + (w - 0xDC00)) as u32)
                                            as char),
                                        i + 11,
                                    ),
                                )
                            } else {
                                None
                            }
                        } else {
                            None
                        }
                    } else {
                        None
                    }
                } else {
                    None
                }
            },
        }
    }
}

/// The JSON string body starting at `i` (the position after the opening
/// quote): the denoted text and the position after the closing quote.
/// Unescaped control characters and unterminated strings are rejected.
pub open spec fn str_body(s: Seq<char>, i: int) -> Option<(Seq<char>, int)>
    decreases s.len() - i,
{
    if !(0 <= i && i < s.len()) {
        None
    } else if s[i] == '"' {
        Some((Seq::empty(), i + 1))
    } else if s[i] == '\\' {
        match escape_at(s, i + 1) {
            Some((c, next)) => if i < next <= s.len() {
                match str_body(s, next) {
                    Some((t, e)) => Some((seq![c] + t, e)),
                    None => None,
                }
            } else {
                None
            },
            None => None,
        }
    } else if (s[i] as u32) < 0x20 {
        None
    } else {
        match str_body(s, i + 1) {
            Some((t, e)) => Some((seq![s[i]] + t, e)),
            None => None,
        }
    }
}

/// Whether a string body parse succeeds at `i`.
pub open spec fn sb_ok(s: Seq<char>, i: int) -> bool {
    str_body(s, i) is Some
}

/// The text a successful string body parse at `i` denotes.
pub open spec fn sb_text(s: Seq<char>, i: int) -> Seq<char> {
    match str_body(s, i) {
        Some((t, _)) => t,
        None => Seq::empty(),
    }
}

/// The position after a successful string body parse at `i`.
pub open spec fn sb_end(s: Seq<char>, i: int) -> int {
    match str_body(s, i) {
        Some((_, e)) => e,
        None => i,
    }
}

/// The key the request object must carry.
pub open spec fn code_key() -> Seq<char> {
    seq!['c', 'o', 'd', 'e']
}

/// The source text denoted by a well-formed request payload: a JSON object
/// `{"code": <string>}` and nothing else.
pub open spec fn parse_request(s: Seq<char>) -> Option<Seq<char>> {
    let i1 = ws_end(s, 0);
    if !(i1 < s.len() && s[i1] == '{') {
        None
    } else {
        let i2 = ws_end(s, i1 + 1);
        if !(i2 < s.len() && s[i2] == '"') {
            None
        } else if !sb_ok(s, i2 + 1) {
            None
        } else if sb_text(s, i2 + 1) != code_key() {
            None
        } else {
            let i3 = ws_end(s, sb_end(s, i2 + 1));
            if !(i3 < s.len() && s[i3] == ':') {
                None
            } else {
                let i4 = ws_end(s, i3 + 1);
                if !(i4 < s.len() && s[i4] == '"') {
                    None
                } else if !sb_ok(s, i4 + 1) {
                    None
                } else {
                    let i5 = ws_end(s, sb_end(s, i4 + 1));
                    if !(i5 < s.len() && s[i5] == '}') {
                        None
                    } else if ws_end(s, i5 + 1) != s.len() {
                        None
                    } else {
                        Some(sb_text(s, i4 + 1))
                    }
                }
            }
        }
    }
}

/// Relies on `char::from_u32`: for every valid Unicode scalar value it
/// returns the character with that code point.
#[verifier::external_body]
fn char_from_scalar(v: u32) -> (c: char)
    requires
        v < 0xD800 || (0xE000 <= v && v <= 0x10FFFF),
    ensures
        c as u32 == v,
{
    char::from_u32(v).unwrap()
}

/// The value of a hexadecimal digit character, if it is one.
fn hex_digit_value(c: char) -> (r: Option<u32>)
    ensures
        match r {
            Some(v) => is_hex_digit(c) && v as int == hex_val(c) && v < 16,
            None => !is_hex_digit(c),
        },
{
    if '0' <= c && c <= '9' {
        Some(c as u32 - 48)
    } else if 'a' <= c && c <= 'f' {
        Some(c as u32 - 87)
    } else if 'A' <= c && c <= 'F' {
        Some(c as u32 - 55)
    } else {
        None
    }
}

/// Read four hexadecimal digits at `i`.
fn read_hex4(s: &str, i: usize, n: usize) -> (r: Option<u32>)
    requires
        n == s@.len(),
        i <= n,
    ensures
        match r {
            Some(v) => hex4_at(s@, i as int) && v as int == hex4_val(s@, i as int) && v < 0x10000,
            None => !hex4_at(s@, i as int),
        },
{
    if n - i < 4 {
        return None;
    }
    let v1 = match hex_digit_value(s.get_char(i)) {
        Some(v) => v,
        None => {
            return None;
        },
    };
    let v2 = match hex_digit_value(s.get_char(i + 1)) {
        Some(v) => v,
        None => {
            return None;
        },
    };
    let v3 = match hex_digit_value(s.get_char(i + 2)) {
        Some(v) => v,
        None => {
            return None;
        },
    };
    let v4 = match hex_digit_value(s.get_char(i + 3)) {
        Some(v) => v,
        None => {
            return None;
        },
    };
    Some(4096 * v1 + 256 * v2 + 16 * v3 + v4)
}

/// Read the escape sequence at `i` (the position after the backslash).
fn parse_escape(s: &str, i: usize, n: usize) -> (r: Option<(char, usize)>)
    requires
        n == s@.len(),
        i <= n,
    ensures
        match r {
            Some((c, next)) => escape_at(s@, i as int) == Some((c, next as int)) && i < next <= n,
            None => escape_at(s@, i as int) is None,
        },
{
    if i == n {
        return None;
    }
    let c = s.get_char(i);
    if c == '"' {
        return Some(('"', i + 1));
    }
    if c == '\\' {
        return Some(('\\', i + 1));
    }
    if c == '/' {
        return Some(('/', i + 1));
    }
    if c == 'b' {
        return Some(('\u{8}', i + 1));
    }
    if c == 'f' {
        return Some(('\u{c}', i + 1));
    }
    if c == 'n' {
        return Some(('\n', i + 1));
    }
    if c == 'r' {
        return Some(('\r', i + 1));
    }
    if c == 't' {
        return Some(('\t', i + 1));
    }
    if c != 'u' {
        return None;
    }
    let v = match read_hex4(s, i + 1, n) {
        Some(v) => v,
        None => {
            return None;
        },
    };
    if v < 0xD800 || v > 0xDFFF {
        let ch = char_from_scalar(v);
        proof {
            vstd::utf8::char_u32_cast(ch, v);
        }
        return Some((ch, i + 5));
    }
    if v > 0xDBFF {
        return None;
    }
    if n - i < 7 {
        return None;
    }
    if !(s.get_char(i + 5) == '\\' && s.get_char(i + 6) == 'u') {
        return None;
    }
    let w = match read_hex4(s, i + 7, n) {
        Some(w) => w,
        None => {
            return None;
        },
    };
    if !(0xDC00 <= w && w <= 0xDFFF) {
        return None;
    }
    let scalar: u32 = 0x10000 + (v - 0xD800) * 0x400 + (w - 0xDC00);
    let ch = char_from_scalar(scalar);
    proof {
        vstd::utf8::char_u32_cast(ch, scalar);
    }
    Some((ch, i + 11))
}

/// Read the string body at `start` (the position after the opening quote).
fn parse_string_body(s: &str, start: usize, n: usize) -> (r: Option<(String, usize)>)
    requires
        n == s@.len(),
        start <= n,
    ensures
        match r {
            Some((text, end)) => sb_ok(s@, start as int) && text@ == sb_text(s@, start as int)
                && end as int == sb_end(s@, start as int) && start < end <= n,
            None => !sb_ok(s@, start as int),
        },
{
    let mut out = String::new();
    let mut i = start;
    loop
        invariant
            start <= i <= n,
            n == s@.len(),
            sb_ok(s@, start as int) == sb_ok(s@, i as int),
            sb_ok(s@, i as int) ==> sb_text(s@, start as int) == out@ + sb_text(s@, i as int),
            sb_ok(s@, i as int) ==> sb_end(s@, start as int) == sb_end(s@, i as int),
        decreases n - i,
    {
        if i == n {
            return None;
        }
        let c = s.get_char(i);
        if c == '"' {
            proof {
                assert(str_body(s@, i as int) == Some((Seq::<char>::empty(), i + 1 as int)));
                assert(out@ + Seq::<char>::empty() =~= out@);
            }
            return Some((out, i + 1));
        }
        if c == '\\' {
            match parse_escape(s, i + 1, n) {
                Some((ec, next)) => {
                    proof {
                        if sb_ok(s@, next as int) {
                            assert(str_body(s@, next as int) == Some(
                                (sb_text(s@, next as int), sb_end(s@, next as int)),
                            ));
                            assert(str_body(s@, i as int) == Some(
                                (seq![ec] + sb_text(s@, next as int), sb_end(s@, next as int)),
                            ));
                            assert(out@ + (seq![ec] + sb_text(s@, next as int)) =~= out@.push(ec)
                                + sb_text(s@, next as int));
                        } else {
                            assert(str_body(s@, i as int) is None);
                        }
                    }
                    out.push(ec);
                    i = next;
                },
                None => {
                    proof {
                        assert(str_body(s@, i as int) is None);
                    }
                    return None;
                },
            }
        } else if (c as u32) < 0x20 {
            proof {
                assert(str_body(s@, i as int) is None);
            }
            return None;
        } else {
            proof {
                if sb_ok(s@, i + 1) {
                    assert(str_body(s@, i + 1) == Some((sb_text(s@, i + 1), sb_end(s@, i + 1))));
                    assert(str_body(s@, i as int) == Some(
                        (seq![s@[i as int]] + sb_text(s@, i + 1), sb_end(s@, i + 1)),
                    ));
                    assert(out@ + (seq![s@[i as int]] + sb_text(s@, i + 1)) =~= out@.push(c)
                        + sb_text(s@, i + 1));
                } else {
                    assert(str_body(s@, i as int) is None);
                }
            }
            out.push(c);
            i = i + 1;
        }
    }
}

/// Executable check for [`is_json_ws`].
fn json_ws_char(c: char) -> (r: bool)
    ensures
        r == is_json_ws(c),
{
    c == ' ' || c == '\t' || c == '\n' || c == '\r'
}

/// Skip JSON whitespace from `from`.
fn skip_json_ws(s: &str, from: usize, n: usize) -> (r: usize)
    requires
        n == s@.len(),
        from <= n,
    ensures
        r as int == ws_end(s@, from as int),
        from <= r <= n,
{
    let mut j = from;
    while j < n && json_ws_char(s.get_char(j))
        invariant
            from <= j <= n,
            n == s@.len(),
            ws_end(s@, from as int) == ws_end(s@, j as int),
        decreases n - j,
    {
        j = j + 1;
    }
    j
}

/// The deserialization failure every malformed payload maps to.
fn malformed() -> (e: Error)
    ensures
        e matches Error::Deserialization { cause } && cause@ == "invalid request body"@,
{
    Error::Deserialization { cause: String::from_str("invalid request body") }
}

/// Decode the inbound request payload.
///
/// An empty body fails with [`Error::RequestMissing`]; a non-empty body
/// that is not a well-formed request payload fails with
/// [`Error::Deserialization`]; a well-formed payload yields exactly the
/// source text its string value denotes.
pub fn decode_compile_request(body: &str) -> (r: Result<CompileRequest, Error>)
    ensures
        body@.len() == 0 ==> r == Err::<CompileRequest, Error>(Error::RequestMissing),
        body@.len() > 0 ==> match parse_request(body@) {
            Some(code) => r matches Ok(req) && req.code@ == code,
            None => r matches Err(e) && e matches Error::Deserialization { cause } && cause@
                == "invalid request body"@,
        },
{
    let n = body.unicode_len();
    if n == 0 {
        return Err(Error::RequestMissing);
    }
    let i1 = skip_json_ws(body, 0, n);
    if i1 == n || body.get_char(i1) != '{' {
        return Err(malformed());
    }
    let i2 = skip_json_ws(body, i1 + 1, n);
    if i2 == n || body.get_char(i2) != '"' {
        return Err(malformed());
    }
    let (key, a) = match parse_string_body(body, i2 + 1, n) {
        Some(p) => p,
        None => {
            return Err(malformed());
        },
    };
    let expected = String::from_str("code");
    proof {
        reveal_strlit("code");
        assert("code"@ =~= code_key());
    }
    if !(key == expected) {
        return Err(malformed());
    }
    let i3 = skip_json_ws(body, a, n);
    if i3 == n || body.get_char(i3) != ':' {
        return Err(malformed());
    }
    let i4 = skip_json_ws(body, i3 + 1, n);
    if i4 == n || body.get_char(i4) != '"' {
        return Err(malformed());
    }
    let (code, b) = match parse_string_body(body, i4 + 1, n) {
        Some(p) => p,
        None => {
            return Err(malformed());
        },
    };
    let i5 = skip_json_ws(body, b, n);
    if i5 == n || body.get_char(i5) != '}' {
        return Err(malformed());
    }
    let i6 = skip_json_ws(body, i5 + 1, n);
    if i6 != n {
        return Err(malformed());
    }
    Ok(CompileRequest { code })
}

} // verus!
