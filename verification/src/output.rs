//! Output capture: turning the raw byte streams of the compiler process
//! into the response text.
//!
//! Standard output is decoded as UTF-8. Standard error may carry colored
//! diagnostics meant for a terminal, so it is passed through an ANSI
//! escape-stripping step before decoding. The two texts are combined,
//! separated by a newline. A nonzero exit code of the compiler is not an
//! error — its diagnostics are the expected product for invalid source —
//! so this stage sees only bytes, never the exit status.

use vstd::prelude::*;
use vstd::string::*;
use vstd::utf8::{decode_utf8, valid_utf8};

use crate::errors::Error;
use crate::wire::CompileResponse;

verus! {

/// What `strip_ansi_escapes::strip` returns for the given bytes: the bytes
/// with ANSI escape sequences — and the other terminal control bytes its
/// parser consumes, linefeeds excepted — removed. The result depends on
/// the input bytes alone.
pub uninterp spec fn ansi_stripped(bytes: Seq<u8>) -> Seq<u8>;

/// Relies on `strip_ansi_escapes::strip`: it feeds the bytes through a
/// terminal-control parser that keeps printable text and linefeeds and
/// drops escape sequences and other control bytes; its result depends on
/// the input bytes alone. It writes into an in-memory buffer, whose writes
/// cannot fail, so the call always succeeds; on empty input nothing is
/// written, so the result is empty.
#[verifier::external_body]
fn strip_ansi(bytes: &Vec<u8>) -> (r: Result<Vec<u8>, String>)
    ensures
        r is Ok,
        r matches Ok(v) ==> v@ == ansi_stripped(bytes@),
        r matches Ok(v) ==> (bytes@.len() == 0 ==> v@.len() == 0),
{
    strip_ansi_escapes::strip(bytes.as_slice()).map_err(|e| e.to_string())
}

/// Relies on `String::from_utf8`: it succeeds exactly on valid UTF-8 and
/// returns the decoded text; on other input it fails, and the error is
/// rendered to text here.
#[verifier::external_body]
fn vec_to_str(bytes: Vec<u8>) -> (r: Result<String, String>)
    ensures
        r is Ok <==> valid_utf8(bytes@),
        r matches Ok(s) ==> s@ == decode_utf8(bytes@),
{
    String::from_utf8(bytes).map_err(|e| e.to_string())
}

/// The combined output text: standard output, a newline, standard error.
pub open spec fn combined_output(stdout_text: Seq<char>, stderr_text: Seq<char>) -> Seq<char> {
    stdout_text + seq!['\n'] + stderr_text
}

/// Combine the two captured output texts into the response.
pub fn compose_output(stdout_text: String, stderr_text: &str) -> (r: CompileResponse)
    ensures
        r.output@ == combined_output(stdout_text@, stderr_text@),
{
    let ghost first = stdout_text@;
    let mut output = stdout_text;
    output.push('\n');
    output.append(stderr_text);
    proof {
        assert(output@ =~= combined_output(first, stderr_text@));
    }
    CompileResponse { output }
}

/// Capture the compiler's output streams.
///
/// The capture succeeds exactly when standard output, and standard error
/// after the escape-stripping step, are valid UTF-8, and then the response
/// holds exactly the two decoded texts separated by a newline. Every
/// failure is [`Error::OutputNotUtf8`], naming the stream that was not
/// text; the stripping step itself cannot fail, so
/// [`Error::UnableToReadOutput`] never arises here.
pub fn capture_output(stdout: Vec<u8>, stderr: Vec<u8>) -> (r: Result<CompileResponse, Error>)
    ensures
        r is Ok <==> (valid_utf8(stdout@) && valid_utf8(ansi_stripped(stderr@))),
        r matches Ok(resp) ==> resp.output@ == combined_output(
            decode_utf8(stdout@),
            decode_utf8(ansi_stripped(stderr@)),
        ),
        r matches Err(e) ==> e matches Error::OutputNotUtf8 { .. },
        stderr@.len() == 0 ==> ansi_stripped(stderr@).len() == 0,
{
    let stripped = match strip_ansi(&stderr) {
        Ok(v) => v,
        Err(cause) => {
            return Err(Error::UnableToReadOutput { cause });
        },
    };
    let stdout_text = match vec_to_str(stdout) {
        Ok(s) => s,
        Err(cause) => {
            return Err(Error::OutputNotUtf8 { cause });
        },
    };
    let stderr_text = match vec_to_str(stripped) {
        Ok(s) => s,
        Err(cause) => {
            return Err(Error::OutputNotUtf8 { cause });
        },
    };
    Ok(compose_output(stdout_text, stderr_text.as_str()))
}

} // verus!
