//! What became of a run of git, and how a question reads it.
//!
//! Every question to git is answered by an outcome: the bytes that git wrote
//! to its standard output, or the reason why there are none. A question
//! reads the output as text. Output that is not UTF-8 is an error, and so is
//! a failure to launch git; both are fatal and stay as they are. Where git
//! ran and reported failure, the question has its own word for what is
//! missing.

use crate::error::{GitError, GitErrorView};
use crate::text::{chars, decode, decoded, string, trim_end, trim_end_of};
use vstd::prelude::*;

verus! {

/// What an outcome stands for.
pub open spec fn outcome_view(outcome: Result<Vec<u8>, GitError>) -> Result<
    Seq<u8>,
    GitErrorView,
> {
    match outcome {
        Ok(bytes) => Ok(bytes@),
        Err(e) => Err(e@),
    }
}

/// What a result that holds a string stands for.
pub open spec fn text_result(r: Result<String, GitError>) -> Result<Seq<char>, GitErrorView> {
    match r {
        Ok(s) => Ok(s@),
        Err(e) => Err(e@),
    }
}

/// What a result that holds plain values stands for.
pub open spec fn plain_result<T>(r: Result<T, GitError>) -> Result<T, GitErrorView> {
    match r {
        Ok(v) => Ok(v),
        Err(e) => Err(e@),
    }
}

/// What became of one run of git that was launched: its standard output
/// where it exited with success, else what it wrote to its standard error,
/// as text.
pub open spec fn exit_result(success: bool, stdout: Seq<u8>, stderr: Seq<u8>) -> Result<
    Seq<u8>,
    GitErrorView,
> {
    if success {
        Ok(stdout)
    } else {
        match decoded(stderr) {
            Some(text) => Err(GitErrorView::ExternalTool(text)),
            None => Err(GitErrorView::Utf8),
        }
    }
}

/// What a question makes of an outcome: of the text of the output what
/// `read` makes of it; `absent` where git reported failure; the error
/// itself where it is fatal, and `Utf8` where the output is no text.
pub open spec fn answer<T>(
    outcome: Result<Seq<u8>, GitErrorView>,
    read: spec_fn(Seq<char>) -> Result<T, GitErrorView>,
    absent: Result<T, GitErrorView>,
) -> Result<T, GitErrorView> {
    match outcome {
        Ok(output) => match decoded(output) {
            Some(text) => read(text),
            None => Err(GitErrorView::Utf8),
        },
        Err(e) => if e.is_fatal() {
            Err(e)
        } else {
            absent
        },
    }
}

/// The text of an outcome, for a question to read: nothing where git
/// reported failure, an error where the outcome is fatal or no text.
pub open spec fn answer_text(outcome: Result<Seq<u8>, GitErrorView>) -> Result<
    Option<Seq<char>>,
    GitErrorView,
> {
    answer(outcome, |text: Seq<char>| Ok(Some(text)), Ok(None))
}

/// What a result that holds an optional string stands for.
pub open spec fn optional_text_result(r: Result<Option<String>, GitError>) -> Result<
    Option<Seq<char>>,
    GitErrorView,
> {
    match r {
        Ok(Some(s)) => Ok(Some(s@)),
        Ok(None) => Ok(None),
        Err(e) => Err(e@),
    }
}

/// What became of one run of git that was launched: `success` says whether
/// it exited with status zero, `stdout` and `stderr` are what it wrote.
pub fn run_git(success: bool, stdout: Vec<u8>, stderr: Vec<u8>) -> (r: Result<Vec<u8>, GitError>)
    ensures
        outcome_view(r) == exit_result(success, stdout@, stderr@),
{
    if success {
        Ok(stdout)
    } else {
        match decode(stderr) {
            Some(text) => Err(GitError::ExternalTool(text)),
            None => Err(GitError::Utf8),
        }
    }
}

/// The text of an outcome: see [`answer_text`].
pub fn read_outcome(outcome: Result<Vec<u8>, GitError>) -> (r: Result<Option<String>, GitError>)
    ensures
        optional_text_result(r) == answer_text(outcome_view(outcome)),
{
    match outcome {
        Ok(output) => match decode(output) {
            Some(text) => Ok(Some(text)),
            None => Err(GitError::Utf8),
        },
        Err(e) => {
            if e.is_fatal() {
                Err(e)
            } else {
                Ok(None)
            }
        },
    }
}

/// A copy of `text` without the white space at its end.
pub fn trimmed(text: &str) -> (r: String)
    ensures
        r@ == trim_end(text@),
{
    string(trim_end_of(chars(text).as_slice()).as_slice())
}

} // verus!
