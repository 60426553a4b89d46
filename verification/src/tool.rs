//! The outside tools as the pipeline sees them: what is asked of one, and
//! how a run of it ended.

use vstd::prelude::*;
use vstd::string::StringExecFns;
use vstd::utf8::{
    decode_utf8, encode_utf8, encode_utf8_decode_utf8, encode_utf8_valid_utf8, valid_utf8,
};

verus! {

/// A tool to run: the program, its arguments, and the directory to run it
/// in.
#[derive(Clone, Debug, PartialEq, Eq)]
pub struct Invocation {
    pub program: String,
    pub args: Vec<String>,
    pub working_dir: String,
}

/// An [`Invocation`] with its texts as sequences of characters.
pub struct InvocationView {
    pub program: Seq<char>,
    pub args: Seq<Seq<char>>,
    pub working_dir: Seq<char>,
}

impl View for Invocation {
    type V = InvocationView;

    open spec fn view(&self) -> InvocationView {
        InvocationView {
            program: self.program@,
            args: self.args.deep_view(),
            working_dir: self.working_dir@,
        }
    }
}

/// What a tool left behind when it ended: its exit status, where it has one,
/// and all it wrote to its standard output and standard error.
#[derive(Clone, Debug, PartialEq, Eq)]
pub struct Output {
    pub status: Option<i32>,
    pub stdout: Vec<u8>,
    pub stderr: Vec<u8>,
}

impl Output {
    /// Whether the tool ended with status 0.
    pub open spec fn succeeded(self) -> bool {
        self.status == Some(0i32)
    }

    /// Whether the tool ended with status 0.
    pub fn success(&self) -> (success: bool)
        ensures
            success == self.succeeded(),
    {
        match self.status {
            Some(code) => code == 0,
            None => false,
        }
    }
}

/// How the attempt to run a tool ended.
#[derive(Clone, Debug, PartialEq, Eq)]
pub enum Outcome {
    /// The tool could not be started; the text says why.
    NotStarted(String),
    /// The tool ran and ended.
    Ended(Output),
}

/// What is to be written to a log file, in place of what the file held.
#[derive(Clone, Debug, PartialEq, Eq)]
pub struct LogEntry {
    pub file: String,
    pub contents: Vec<u8>,
}

/// A [`LogEntry`] with its name as a sequence of characters and its
/// contents as a sequence of bytes.
pub struct LogEntryView {
    pub file: Seq<char>,
    pub contents: Seq<u8>,
}

impl View for LogEntry {
    type V = LogEntryView;

    open spec fn view(&self) -> LogEntryView {
        LogEntryView { file: self.file@, contents: self.contents@ }
    }
}

/// What stands for bytes that are no text.
pub open spec fn unreadable() -> Seq<char> {
    "(not valid UTF-8)"@
}

/// The text that `bytes` encode in UTF-8, or [`unreadable`] where they
/// encode none.
pub open spec fn text_of(bytes: Seq<u8>) -> Seq<char> {
    if valid_utf8(bytes) {
        decode_utf8(bytes)
    } else {
        unreadable()
    }
}

/// Calls `String::from_utf8` of the standard library on a copy of `bytes`.
/// Claims that it gives a string exactly when the bytes are valid UTF-8,
/// and that the string is then made of these very bytes.
#[verifier::external_body]
fn from_utf8(bytes: &[u8]) -> (text: Option<String>)
    ensures
        text is Some <==> valid_utf8(bytes@),
        text matches Some(string) ==> encode_utf8(string@) == bytes@,
{
    String::from_utf8(bytes.to_vec()).ok()
}

/// What a tool wrote, as text.
pub fn diagnostics(bytes: &[u8]) -> (text: String)
    ensures
        text@ == text_of(bytes@),
{
    match from_utf8(bytes) {
        Some(text) => {
            proof {
                encode_utf8_decode_utf8(text@);
            }
            text
        },
        None => String::from_str("(not valid UTF-8)"),
    }
}

/// Text is read back from its UTF-8 encoding.
pub proof fn lemma_text_of_encoding(text: Seq<char>)
    ensures
        text_of(encode_utf8(text)) == text,
{
    encode_utf8_valid_utf8(text);
    encode_utf8_decode_utf8(text);
}

} // verus!
