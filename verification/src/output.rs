//! What a program left behind when it ended, and the reading of bytes as text.

use vstd::prelude::*;
use vstd::utf8::{decode_utf8, valid_utf8};
use crate::error::{ErrorKind, ErrorView, LookupError};
use crate::text::{join3, join5, to_chars};

verus! {

/// How a program ended and what it wrote.
#[derive(Clone, Debug)]
pub struct CommandOutput {
    /// The exit code, or `None` when a signal ended the program.
    pub code: Option<i32>,
    /// The way the program ended, in words.
    pub status: String,
    /// What the program wrote to its standard output.
    pub stdout: Vec<u8>,
    /// What the program wrote to its standard error.
    pub stderr: Vec<u8>,
}

/// A `CommandOutput` as contracts speak of it.
pub struct OutputView {
    pub code: Option<i32>,
    pub status: Seq<char>,
    pub stdout: Seq<u8>,
    pub stderr: Seq<u8>,
}

impl View for CommandOutput {
    type V = OutputView;

    open spec fn view(&self) -> OutputView {
        OutputView {
            code: self.code,
            status: self.status@,
            stdout: self.stdout@,
            stderr: self.stderr@,
        }
    }
}

impl OutputView {
    /// Whether the program reported success: it ended by itself, with code 0.
    pub open spec fn succeeded(self) -> bool {
        self.code == Some(0i32)
    }
}

/// What running a program gave, as contracts speak of it: the output of the
/// program, or the reason why it could not be started.
pub open spec fn ran_view(ran: Result<CommandOutput, String>) -> Result<OutputView, Seq<char>> {
    match ran {
        Ok(output) => Ok(output@),
        Err(cause) => Err(cause@),
    }
}

/// What reading a file gave, as contracts speak of it: the bytes of the
/// file, or the reason why it could not be read.
pub open spec fn read_view(read: Result<Vec<u8>, String>) -> Result<Seq<u8>, Seq<char>> {
    match read {
        Ok(bytes) => Ok(bytes@),
        Err(cause) => Err(cause@),
    }
}

impl CommandOutput {
    /// Tells whether the program reported success.
    pub fn success(&self) -> (ok: bool)
        ensures
            ok == self@.succeeded(),
    {
        match self.code {
            Some(code) => code == 0,
            None => false,
        }
    }
}

/// The text that `bytes` stand for when every run of bytes that is not UTF-8
/// is read as U+FFFD, the replacement character.
pub uninterp spec fn lossy_text(bytes: Seq<u8>) -> Seq<char>;

/// Reads `bytes` as text, tolerating bytes that are not UTF-8.
///
/// Calls `String::from_utf8_lossy`. The contract names its result, and claims
/// of it that bytes which are UTF-8 throughout are read as the text they
/// encode.
#[verifier::external_body]
pub(crate) fn read_lossy(bytes: &[u8]) -> (text: String)
    ensures
        text@ == lossy_text(bytes@),
        valid_utf8(bytes@) ==> text@ == decode_utf8(bytes@),
{
    String::from_utf8_lossy(bytes).into_owned()
}

/// The characters that `bytes` stand for, read with tolerance. Bytes that
/// are UTF-8 throughout stand for the text that they encode.
pub fn lossy_chars(bytes: &[u8]) -> (chars: Vec<char>)
    ensures
        chars@ == lossy_text(bytes@),
        valid_utf8(bytes@) ==> chars@ == decode_utf8(bytes@),
{
    let text = read_lossy(bytes);
    to_chars(text.as_str())
}

/// Reads `bytes` as text, if they are UTF-8.
///
/// Calls `std::str::from_utf8`. The contract claims that it accepts exactly
/// the byte strings that are UTF-8 throughout, and returns the text that they
/// encode.
#[verifier::external_body]
pub(crate) fn read_utf8(bytes: &[u8]) -> (text: Option<&str>)
    ensures
        text is Some <==> valid_utf8(bytes@),
        text is Some ==> text->0@ == decode_utf8(bytes@),
{
    std::str::from_utf8(bytes).ok()
}

/// The failure of a program that could not be started: `what` was being
/// done, and `cause` is the system's reason.
pub open spec fn not_started(what: Seq<char>, cause: Seq<char>) -> ErrorView {
    ErrorView { kind: ErrorKind::ExternalCommandFailed, message: what + ": "@ + cause }
}

/// Reports that a program could not be started.
pub fn start_failure(what: &str, cause: &str) -> (e: LookupError)
    ensures
        e@ == not_started(what@, cause@),
{
    LookupError::new(ErrorKind::ExternalCommandFailed, join3(what, ": ", cause))
}

/// The failure of a program that ended without success: `what` failed, the
/// program ended as `status` says, and `detail` is what it had to say.
pub open spec fn ended_badly(what: Seq<char>, status: Seq<char>, detail: Seq<char>) -> ErrorView {
    ErrorView {
        kind: ErrorKind::ExternalCommandFailed,
        message: what + " ("@ + status + "): "@ + detail,
    }
}

/// Reports that a program ended without success.
pub fn exit_failure(what: &str, status: &str, detail: &str) -> (e: LookupError)
    ensures
        e@ == ended_badly(what@, status@, detail@),
{
    LookupError::new(
        ErrorKind::ExternalCommandFailed,
        join5(what, " (", status, "): ", detail),
    )
}

/// Appends a character to a string, as `String::push` does.
pub assume_specification[ String::push ](s: &mut String, c: char)
    ensures
        final(s)@ == old(s)@.push(c),
;

/// The string that holds the characters `chars`.
pub fn text_of(chars: &[char]) -> (s: String)
    ensures
        s@ == chars@,
{
    let mut s = String::new();
    let mut i: usize = 0;
    while i < chars.len()
        invariant
            i <= chars.len(),
            s@ == chars@.take(i as int),
        decreases chars.len() - i,
    {
        s.push(chars[i]);
        proof {
            assert(chars@.take(i + 1) == chars@.take(i as int).push(chars@[i as int]));
        }
        i += 1;
    }
    proof {
        assert(chars@.take(i as int) == chars@);
    }
    s
}

} // verus!
