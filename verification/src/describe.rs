//! The nearest tag: git's long description of a commit, and its parts.

use crate::error::{GitError, GitErrorView};
use crate::number::{decimal, lemma_decimal_denotes, parse_usize, usize_value};
use crate::output::{answer, optional_text_result, outcome_view, read_outcome, trimmed};
use crate::text::{
    chars, find_last, lemma_rfind_before_is, rfind_before, slice, string, trim_end,
};
use vstd::prelude::*;

verus! {

/// The index of the hyphen before the abbreviated hash: the last hyphen of
/// the description, or `-1`.
pub open spec fn hash_cut(description: Seq<char>) -> int {
    rfind_before(description, '-', description.len() as int)
}

/// The index of the hyphen before the distance: the last hyphen before the
/// one at [`hash_cut`], or `-1`.
pub open spec fn distance_cut(description: Seq<char>) -> int {
    rfind_before(description, '-', hash_cut(description))
}

/// The tag and the distance of a description of the shape
/// `<tag>-<distance>-g<hash>`. The description is read from its end, since
/// a tag may hold hyphens: what follows the last hyphen is dropped, what
/// stands between the last two hyphens is the distance, and all before that
/// is the tag. A description with fewer than two hyphens has no parts, nor
/// has one whose distance is no number.
pub open spec fn describe_parts(description: Seq<char>) -> Option<(Seq<char>, usize)> {
    let cut = hash_cut(description);
    let dash = distance_cut(description);
    if cut < 0 || dash < 0 {
        None
    } else {
        match usize_value(description.subrange(dash + 1, cut)) {
            Some(distance) => Some((description.take(dash), distance)),
            None => None,
        }
    }
}

/// What reading a description comes to: its parts, or the complaint that
/// it is malformed.
pub open spec fn read_description(description: Seq<char>) -> Result<
    (Seq<char>, usize),
    GitErrorView,
> {
    match describe_parts(description) {
        Some(parts) => Ok(parts),
        None => Err(GitErrorView::MalformedDescribeOutput),
    }
}

/// What a result that holds a tag and a distance stands for.
pub open spec fn parts_result(r: Result<(String, usize), GitError>) -> Result<
    (Seq<char>, usize),
    GitErrorView,
> {
    match r {
        Ok((tag, distance)) => Ok((tag@, distance)),
        Err(e) => Err(e@),
    }
}

/// The description of a commit, by the outcome of asking for it: the output
/// without the white space at its end. Where git reports failure there is
/// nothing to describe the commit by.
pub open spec fn describe_result(outcome: Result<Seq<u8>, GitErrorView>) -> Result<
    Option<Seq<char>>,
    GitErrorView,
> {
    answer(outcome, |text: Seq<char>| Ok(Some(trim_end(text))), Ok(None))
}

/// Whatever hyphens a tag holds, the description made of it, a distance and
/// an abbreviated hash has that tag and that distance for its parts.
pub proof fn lemma_describe_parts_of(tag: Seq<char>, distance: usize, hash: Seq<char>)
    requires
        !hash.contains('-'),
    ensures
        describe_parts(tag + seq!['-'] + decimal(distance as nat) + seq!['-', 'g'] + hash) == Some(
            (tag, distance),
        ),
{
    let digits = decimal(distance as nat);
    let description = tag + seq!['-'] + digits + seq!['-', 'g'] + hash;
    let dash = tag.len() as int;
    let cut = dash + 1 + digits.len();
    lemma_decimal_denotes(distance as nat);
    lemma_rfind_before_is(description, '-', description.len() as int, cut);
    lemma_rfind_before_is(description, '-', cut, dash);
    assert(description.subrange(dash + 1, cut) == digits);
}

/// The description of a commit, from the outcome of
/// `git describe --tags --long`. There is none where git reported failure,
/// as it does where no tag is in reach. Fails only with the outcome's own
/// error where that is fatal, and with `Utf8` where the output is no text.
pub fn describe(outcome: Result<Vec<u8>, GitError>) -> (r: Result<Option<String>, GitError>)
    ensures
        optional_text_result(r) == describe_result(outcome_view(outcome)),
{
    match read_outcome(outcome) {
        Ok(Some(text)) => Ok(Some(trimmed(text.as_str()))),
        Ok(None) => Ok(None),
        Err(e) => Err(e),
    }
}

/// The tag and the distance that a description names. Fails with
/// `MalformedDescribeOutput` where the description has no such parts.
pub fn parse_describe(description: &str) -> (r: Result<(String, usize), GitError>)
    ensures
        parts_result(r) == read_description(description@),
{
    let res = chars(description);
    let cut = match find_last(res.as_slice(), '-', res.len()) {
        Some(i) => i,
        None => {
            return Err(GitError::MalformedDescribeOutput);
        },
    };
    let dash = match find_last(res.as_slice(), '-', cut) {
        Some(i) => i,
        None => {
            return Err(GitError::MalformedDescribeOutput);
        },
    };
    match parse_usize(slice(res.as_slice(), dash + 1, cut).as_slice()) {
        Some(commit_count) => {
            let tag_name = string(slice(res.as_slice(), 0, dash).as_slice());
            Ok((tag_name, commit_count))
        },
        None => Err(GitError::MalformedDescribeOutput),
    }
}

} // verus!
