//! Where the working tree is, and which branch is checked out in it.

use crate::error::{GitError, GitErrorView};
use crate::output::{
    answer, optional_text_result, outcome_view, read_outcome, text_result, trimmed,
};
use crate::text::{chars, slice, starts_with, string, trim, trim_end, trim_of};
use vstd::prelude::*;

verus! {

/// The branch that a reference names: the reference without the white space
/// around it and without `refs/heads/` before it. An empty name is no
/// branch.
pub open spec fn branch_of(reference: Seq<char>) -> Option<Seq<char>> {
    let name = trim(reference);
    let name = if "refs/heads/"@.is_prefix_of(name) {
        name.skip("refs/heads/"@.len() as int)
    } else {
        name
    };
    if name.len() == 0 {
        None
    } else {
        Some(name)
    }
}

/// Where the working tree is, by the outcome of asking for it: the output
/// without the white space at its end. Where git reports failure there is
/// no repository.
pub open spec fn git_dir_result(outcome: Result<Seq<u8>, GitErrorView>) -> Result<
    Seq<char>,
    GitErrorView,
> {
    answer(outcome, |text: Seq<char>| Ok(trim_end(text)), Err(GitErrorView::NotARepository))
}

/// The branch that is checked out, by the outcome of asking for it. Where
/// git reports failure there is no branch.
pub open spec fn branch_result(outcome: Result<Seq<u8>, GitErrorView>) -> Result<
    Option<Seq<char>>,
    GitErrorView,
> {
    answer(outcome, |text: Seq<char>| Ok(branch_of(text)), Ok(None))
}

/// The branch that `reference` names.
pub fn branch(reference: &str) -> (r: Option<String>)
    ensures
        crate::info::string_view(r) == branch_of(reference@),
{
    let mut name = trim_of(chars(reference).as_slice());
    let prefix = chars("refs/heads/");
    if starts_with(name.as_slice(), prefix.as_slice()) {
        name = slice(name.as_slice(), prefix.len(), name.len());
    }
    if name.len() == 0 {
        None
    } else {
        Some(string(name.as_slice()))
    }
}

/// The top directory of the working tree, from the outcome of
/// `git rev-parse --show-toplevel`. Fails with `NotARepository` where git
/// reported failure, and with the outcome's own error where that is fatal.
pub fn find_git_dir(outcome: Result<Vec<u8>, GitError>) -> (r: Result<String, GitError>)
    ensures
        text_result(r) == git_dir_result(outcome_view(outcome)),
{
    match read_outcome(outcome) {
        Ok(Some(dir)) => Ok(trimmed(dir.as_str())),
        Ok(None) => Err(GitError::NotARepository),
        Err(e) => Err(e),
    }
}

/// The branch that is checked out, from the outcome of
/// `git symbolic-ref -q HEAD` or, where that failed, of
/// `git name-rev --name-only HEAD`. There is no branch where git reported
/// failure or named none. Fails only with the outcome's own error where
/// that is fatal, and with `Utf8` where the output is no text.
pub fn branch_name(outcome: Result<Vec<u8>, GitError>) -> (r: Result<Option<String>, GitError>)
    ensures
        optional_text_result(r) == branch_result(outcome_view(outcome)),
{
    match read_outcome(outcome) {
        Ok(Some(symref)) => Ok(branch(symref.as_str())),
        Ok(None) => Ok(None),
        Err(e) => Err(e),
    }
}

} // verus!
