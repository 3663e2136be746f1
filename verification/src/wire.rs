//! The response side of the request/response adapter: the JSON envelopes
//! the service answers with, and the encoder that renders them.
//!
//! A success is `{"output":"<text>"}` with status 200; every failure is
//! `{"error":"<message>"}` with status 500. Encoding is total — every
//! character of the payload has a rendering — so the adapter always
//! produces a well-formed body.

use vstd::prelude::*;
use vstd::string::*;

use crate::errors::{message_of, Error};

verus! {

/// The compilation request issued by the frontend.
#[derive(Debug, Clone, PartialEq, Eq)]
pub struct CompileRequest {
    /// The submitted source text.
    pub code: String,
}

/// The compilation response issued by the server: the captured standard
/// output and (escape-stripped) standard error of the compiler, separated
/// by a newline.
#[derive(Debug, Clone, PartialEq, Eq)]
pub struct CompileResponse {
    /// The combined output text.
    pub output: String,
}

/// An HTTP response: a status code and a JSON body.
#[derive(Debug, Clone, PartialEq, Eq)]
pub struct HttpReply {
    /// The status code: 200 on success, 500 on every failure.
    pub status: u16,
    /// The JSON body.
    pub body: String,
}

/// The fallback JSON error body for a transport that failed to deliver an
/// encoded reply. The encoder itself is total and never needs it.
pub const FATAL_ERROR_JSON: &'static str =
    "{\"error\": \"Multiple cascading errors occurred, abandon all hope\"}";

/// The hexadecimal digit for a value below sixteen.
pub open spec fn hex_char(v: int) -> char {
    if v == 0 {
        '0'
    } else if v == 1 {
        '1'
    } else if v == 2 {
        '2'
    } else if v == 3 {
        '3'
    } else if v == 4 {
        '4'
    } else if v == 5 {
        '5'
    } else if v == 6 {
        '6'
    } else if v == 7 {
        '7'
    } else if v == 8 {
        '8'
    } else if v == 9 {
        '9'
    } else if v == 10 {
        'a'
    } else if v == 11 {
        'b'
    } else if v == 12 {
        'c'
    } else if v == 13 {
        'd'
    } else if v == 14 {
        'e'
    } else {
        'f'
    }
}

/// The JSON rendering of one character inside a string literal: quote and
/// backslash are escaped, the named control characters take their short
/// escapes, every other control character takes a `\u00..` escape, and all
/// remaining characters stand for themselves.
pub open spec fn escape_char(c: char) -> Seq<char> {
    if c == '"' {
        seq!['\\', '"']
    } else if c == '\\' {
        seq!['\\', '\\']
    } else if c == '\u{8}' {
        seq!['\\', 'b']
    } else if c == '\u{c}' {
        seq!['\\', 'f']
    } else if c == '\n' {
        seq!['\\', 'n']
    } else if c == '\r' {
        seq!['\\', 'r']
    } else if c == '\t' {
        seq!['\\', 't']
    } else if (c as u32) < 0x20 {
        seq!['\\', 'u', '0', '0', hex_char((c as u32) as int / 16), hex_char((c as u32) as int % 16)]
    } else {
        seq![c]
    }
}

/// The JSON rendering of a whole string, character by character.
pub open spec fn json_escaped(s: Seq<char>) -> Seq<char>
    decreases s.len(),
{
    if s.len() == 0 {
        Seq::empty()
    } else {
        escape_char(s[0]) + json_escaped(s.drop_first())
    }
}

/// Escaping distributes over concatenation.
proof fn lemma_json_escaped_concat(a: Seq<char>, b: Seq<char>)
    ensures
        json_escaped(a + b) == json_escaped(a) + json_escaped(b),
    decreases a.len(),
{
    if a.len() == 0 {
        assert(a + b =~= b);
        assert(json_escaped(a) + json_escaped(b) =~= json_escaped(b));
    } else {
        assert((a + b)[0] == a[0]);
        assert((a + b).drop_first() =~= a.drop_first() + b);
        lemma_json_escaped_concat(a.drop_first(), b);
        assert(escape_char(a[0]) + (json_escaped(a.drop_first()) + json_escaped(b)) =~= (
        escape_char(a[0]) + json_escaped(a.drop_first())) + json_escaped(b));
    }
}

/// Escaping one more character appends that character's rendering.
proof fn lemma_json_escaped_snoc(s: Seq<char>, i: int)
    requires
        0 <= i < s.len(),
    ensures
        json_escaped(s.take(i + 1)) == json_escaped(s.take(i)) + escape_char(s[i]),
{
    assert(s.take(i + 1) =~= s.take(i) + seq![s[i]]);
    lemma_json_escaped_concat(s.take(i), seq![s[i]]);
    assert(seq![s[i]].drop_first() =~= Seq::<char>::empty());
    assert(json_escaped(Seq::<char>::empty()) =~= Seq::<char>::empty());
    assert(seq![s[i]][0] == s[i]);
    assert(json_escaped(seq![s[i]]) =~= escape_char(s[i]) + json_escaped(seq![s[i]].drop_first()));
    assert(json_escaped(seq![s[i]]) =~= escape_char(s[i]));
}

/// The hexadecimal digit for a value below sixteen.
fn hex_char_of(v: u32) -> (r: char)
    requires
        v < 16,
    ensures
        r == hex_char(v as int),
{
    match v {
        0 => '0',
        1 => '1',
        2 => '2',
        3 => '3',
        4 => '4',
        5 => '5',
        6 => '6',
        7 => '7',
        8 => '8',
        9 => '9',
        10 => 'a',
        11 => 'b',
        12 => 'c',
        13 => 'd',
        14 => 'e',
        _ => 'f',
    }
}

/// Append the JSON rendering of `value` to `out`.
fn append_escaped(out: &mut String, value: &str)
    ensures
        final(out)@ == old(out)@ + json_escaped(value@),
{
    let n = value.unicode_len();
    let mut i: usize = 0;
    proof {
        assert(value@.take(0) =~= Seq::<char>::empty());
        assert(old(out)@ + json_escaped(value@.take(0)) =~= old(out)@);
    }
    while i < n
        invariant
            i <= n,
            n == value@.len(),
            out@ == old(out)@ + json_escaped(value@.take(i as int)),
        decreases n - i,
    {
        let c = value.get_char(i);
        proof {
            lemma_json_escaped_snoc(value@, i as int);
        }
        let ghost mid = out@;
        if c == '"' {
            out.push('\\');
            out.push('"');
        } else if c == '\\' {
            out.push('\\');
            out.push('\\');
        } else if c == '\u{8}' {
            out.push('\\');
            out.push('b');
        } else if c == '\u{c}' {
            out.push('\\');
            out.push('f');
        } else if c == '\n' {
            out.push('\\');
            out.push('n');
        } else if c == '\r' {
            out.push('\\');
            out.push('r');
        } else if c == '\t' {
            out.push('\\');
            out.push('t');
        } else if (c as u32) < 0x20 {
            let v = c as u32;
            out.push('\\');
            out.push('u');
            out.push('0');
            out.push('0');
            out.push(hex_char_of(v / 16));
            out.push(hex_char_of(v % 16));
        } else {
            out.push(c);
        }
        proof {
            assert(out@ =~= mid + escape_char(value@[i as int]));
            assert(out@ =~= old(out)@ + json_escaped(value@.take(i + 1)));
        }
        i = i + 1;
    }
    proof {
        assert(value@.take(n as int) =~= value@);
    }
}

/// The key of the success envelope.
pub open spec fn output_key() -> Seq<char> {
    seq!['o', 'u', 't', 'p', 'u', 't']
}

/// The key of the error envelope.
pub open spec fn error_key() -> Seq<char> {
    seq!['e', 'r', 'r', 'o', 'r']
}

/// A one-key JSON object whose value is the escaped payload.
pub open spec fn envelope_body(key: Seq<char>, value: Seq<char>) -> Seq<char> {
    seq!['{', '"'] + key + seq!['"', ':', '"'] + json_escaped(value) + seq!['"', '}']
}

/// The body of a success reply.
pub open spec fn output_reply_body(output: Seq<char>) -> Seq<char> {
    envelope_body(output_key(), output)
}

/// The body of an error reply.
pub open spec fn error_reply_body(message: Seq<char>) -> Seq<char> {
    envelope_body(error_key(), message)
}

/// Render a one-key JSON object with the given payload as its value.
pub fn encode_envelope(key: &str, value: &str) -> (r: String)
    ensures
        r@ == envelope_body(key@, value@),
{
    let mut out = String::new();
    out.push('{');
    out.push('"');
    out.append(key);
    out.push('"');
    out.push(':');
    out.push('"');
    append_escaped(&mut out, value);
    out.push('"');
    out.push('}');
    proof {
        assert(out@ =~= envelope_body(key@, value@));
    }
    out
}

/// Encode a pipeline result as an HTTP reply: a success becomes status 200
/// with the output envelope, every error becomes status 500 with the error
/// envelope carrying the error's stable message.
pub fn respond(result: Result<CompileResponse, Error>) -> (r: HttpReply)
    ensures
        match result {
            Ok(resp) => r.status == 200 && r.body@ == output_reply_body(resp.output@),
            Err(e) => r.status == 500 && r.body@ == error_reply_body(message_of(e)),
        },
{
    match result {
        Ok(resp) => {
            let body = encode_envelope("output", resp.output.as_str());
            proof {
                reveal_strlit("output");
                assert("output"@ =~= output_key());
            }
            HttpReply { status: 200, body }
        },
        Err(e) => {
            let message = e.message();
            let body = encode_envelope("error", message.as_str());
            proof {
                reveal_strlit("error");
                assert("error"@ =~= error_key());
            }
            HttpReply { status: 500, body }
        },
    }
}

} // verus!
