//! Commands for the caller to run, and the reading of what they print.

use crate::text::{trim, trimmed};
use vstd::prelude::*;
use vstd::string::*;
use vstd::utf8::{decode_utf8, valid_utf8};

verus! {

/// A program to run, with its arguments and the directory to run it in.
#[derive(PartialEq, Eq, Debug)]
pub struct Command {
    pub program: String,
    pub args: Vec<String>,
    pub dir: Option<String>,
}

/// What a [`Command`] says, as plain text.
pub struct CommandView {
    pub program: Seq<char>,
    pub args: Seq<Seq<char>>,
    pub dir: Option<Seq<char>>,
}

impl View for Command {
    type V = CommandView;

    open spec fn view(&self) -> CommandView {
        CommandView {
            program: self.program@,
            args: self.args.deep_view(),
            dir: self.dir.deep_view(),
        }
    }
}

impl CommandView {
    /// The directory the command runs in: the one it names, or the current
    /// one.
    pub open spec fn working_dir(self) -> Seq<char> {
        match self.dir {
            Some(dir) => dir,
            None => "."@,
        }
    }
}

impl Command {
    /// The directory to run the command in: the one it names, or `.`.
    pub fn working_dir(&self) -> (dir: &str)
        ensures
            dir@ == self@.working_dir(),
    {
        match &self.dir {
            Some(dir) => dir.as_str(),
            None => ".",
        }
    }
}

/// What is known of a command that was started and has come to an end.
#[derive(PartialEq, Eq, Debug)]
pub struct ProcessOutput {
    /// Whether the exit status was zero.
    pub success: bool,
    /// The bytes written to standard output.
    pub stdout: Vec<u8>,
}

/// `std::string::FromUtf8Error`, the error of `String::from_utf8`.  Nothing is
/// read from it: that there is an error is all that counts.
#[verifier::external_type_specification]
#[verifier::external_body]
pub struct ExFromUtf8Error(std::string::FromUtf8Error);

/// Taken on trust from the standard library: `String::from_utf8` succeeds
/// exactly when the bytes are well-formed UTF-8, and the string it then gives
/// holds the characters that the bytes encode.
pub assume_specification[ String::from_utf8 ](vec: Vec<u8>) -> (decoded: Result<
    String,
    std::string::FromUtf8Error,
>)
    ensures
        decoded is Ok <==> valid_utf8(vec@),
        decoded matches Ok(text) ==> text@ == decode_utf8(vec@),
;

/// The text of a command's output.  `output` is `None` for a command that
/// could not be started or waited for.
///
/// There is text only when the command ended with success and wrote
/// well-formed UTF-8: the decoded characters, without the white space at
/// either end.
pub open spec fn output_text(output: Option<ProcessOutput>) -> Option<Seq<char>> {
    match output {
        Some(out) => if out.success && valid_utf8(out.stdout@) {
            Some(trimmed(decode_utf8(out.stdout@)))
        } else {
            None
        },
        None => None,
    }
}

/// Reads the outcome of a command: its trimmed output, or `None` for any
/// kind of failure.
pub fn command_output(output: Option<ProcessOutput>) -> (text: Option<String>)
    ensures
        text.deep_view() == output_text(output),
{
    match output {
        Some(out) => {
            if !out.success {
                return None;
            }
            match String::from_utf8(out.stdout) {
                Ok(decoded) => Some(trim(decoded.as_str())),
                Err(_) => None,
            }
        },
        None => None,
    }
}

} // verus!
