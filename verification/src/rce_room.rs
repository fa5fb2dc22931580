//! The RCE training room runs what it is sent with `sh -c`; what it
//! answers is the command's output as text.
use vstd::prelude::*;
use vstd::utf8::{decode_utf8, valid_utf8};

verus! {

pub struct ExecRequest {
    pub cmd: String,
}

pub struct ExecResponse {
    pub stdout: String,
    pub stderr: String,
}

/// `String::from_utf8_lossy`: the text of the bytes, each invalid sequence
/// replaced by U+FFFD.
pub uninterp spec fn utf8_lossy(bytes: Seq<u8>) -> Seq<char>;

/// `String::from_utf8_lossy(bytes).into_owned()`.
///
/// Contract: the text is the named result `utf8_lossy` of the bytes, and
/// for valid UTF-8 it is exactly the text they encode (as the function's
/// documentation states).
#[verifier::external_body]
fn lossy_text(bytes: &[u8]) -> (r: String)
    ensures
        r@ == utf8_lossy(bytes@),
        valid_utf8(bytes@) ==> r@ == decode_utf8(bytes@),
{
    String::from_utf8_lossy(bytes).into_owned()
}

/// The answer to a command: its output and error output as text, or, when
/// it could not be run, no output and the error's text.
pub fn exec_response(outcome: Result<(Vec<u8>, Vec<u8>), String>) -> (r: ExecResponse)
    ensures
        match outcome {
            Ok(out) => r.stdout@ == utf8_lossy(out.0@) && r.stderr@ == utf8_lossy(out.1@),
            Err(e) => r.stdout@.len() == 0 && r.stderr == e,
        },
{
    match outcome {
        Ok(out) => ExecResponse { stdout: lossy_text(out.0.as_slice()), stderr: lossy_text(out.1.as_slice()) },
        Err(e) => ExecResponse { stdout: String::new(), stderr: e },
    }
}

} // verus!
