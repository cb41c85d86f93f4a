//! Questions put to git, and the reading of its answers.
//!
//! An answer is what [`command_output`](crate::command::command_output) made
//! of the command's outcome: a text, or `None` for a command that failed.

use crate::command::{output_text, Command, CommandView, ProcessOutput};
use crate::sync::OPENRPC_DIR;
use crate::text::{lemma_trimmed_is_tight, trim, trimmed};
use vstd::prelude::*;
use vstd::string::*;

verus! {

/// The command that names the branch checked out in the current directory:
/// `git rev-parse --abbrev-ref HEAD`.
pub fn current_branch_command() -> (command: Command)
    ensures
        command@ == (CommandView {
            program: "git"@,
            args: seq!["rev-parse"@, "--abbrev-ref"@, "HEAD"@],
            dir: None,
        }),
{
    let command = Command {
        program: "git".to_owned(),
        args: vec!["rev-parse".to_owned(), "--abbrev-ref".to_owned(), "HEAD".to_owned()],
        dir: None,
    };
    assert(command@.args =~= seq!["rev-parse"@, "--abbrev-ref"@, "HEAD"@]);
    command
}

/// The command that lists what differs from the last commit in the clone:
/// `git status --porcelain`.
pub fn status_command() -> (command: Command)
    ensures
        command@ == (CommandView {
            program: "git"@,
            args: seq!["status"@, "--porcelain"@],
            dir: Some(OPENRPC_DIR@),
        }),
{
    let command = Command {
        program: "git".to_owned(),
        args: vec!["status".to_owned(), "--porcelain".to_owned()],
        dir: Some(OPENRPC_DIR.to_owned()),
    };
    assert(command@.args =~= seq!["status"@, "--porcelain"@]);
    command
}

/// The command that prints where the clone came from:
/// `git config --get remote.origin.url`.
pub fn remote_url_command() -> (command: Command)
    ensures
        command@ == (CommandView {
            program: "git"@,
            args: seq!["config"@, "--get"@, "remote.origin.url"@],
            dir: Some(OPENRPC_DIR@),
        }),
{
    let command = Command {
        program: "git".to_owned(),
        args: vec!["config".to_owned(), "--get".to_owned(), "remote.origin.url".to_owned()],
        dir: Some(OPENRPC_DIR.to_owned()),
    };
    assert(command@.args =~= seq!["config"@, "--get"@, "remote.origin.url"@]);
    command
}

/// The current branch, from the answer to [`current_branch_command`]:
/// the answer itself, or `unknown` where there is none.
pub fn get_current_git_branch(answer: Option<String>) -> (branch: String)
    ensures
        branch@ == (match answer {
            Some(name) => name@,
            None => "unknown"@,
        }),
{
    match answer {
        Some(name) => name,
        None => "unknown".to_owned(),
    }
}

/// Whether the clone holds uncommitted changes, from the answer to
/// [`status_command`]: it does when the answer lists anything at all.
pub fn is_git_repo_dirty(answer: Option<String>) -> (dirty: bool)
    ensures
        dirty == (match answer {
            Some(listing) => listing@.len() > 0,
            None => false,
        }),
{
    match answer {
        Some(listing) => !listing.as_str().is_empty(),
        None => false,
    }
}

/// The address the clone came from, from the answer to
/// [`remote_url_command`]: the answer without the white space around it, or
/// the empty text where there is none.
pub fn get_git_remote_url(answer: Option<String>) -> (url: String)
    ensures
        url@ == (match answer {
            Some(text) => trimmed(text@),
            None => Seq::<char>::empty(),
        }),
{
    match answer {
        Some(text) => trim(text.as_str()),
        None => String::new(),
    }
}

/// The text read from a command's outcome has no white space around it:
/// [`get_git_remote_url`] returns such an answer as it is.
pub proof fn lemma_remote_url_of_output(output: Option<ProcessOutput>)
    ensures
        output_text(output) matches Some(text) ==> trimmed(text) == text,
{
    if let Some(out) = output {
        lemma_trimmed_is_tight(vstd::utf8::decode_utf8(out.stdout@));
    }
}

} // verus!
