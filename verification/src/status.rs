//! The state of the working tree, read from git's porcelain listing.

use crate::error::{GitError, GitErrorView};
use crate::info::{entry_views, StatusEntry, StatusEntryView, StatusFlag};
use crate::output::{answer, outcome_view, read_outcome};
use crate::text::{chars, line_views, lines, slice, split_lines, string};
use vstd::prelude::*;

verus! {

/// Whether a code of the listing names a state: `?` names untracked, `A`
/// added, `M` and `T` (a changed type) modified, `D` deleted.
pub open spec fn code_names(code: char, flag: StatusFlag) -> bool {
    match flag {
        StatusFlag::Untracked => code == '?',
        StatusFlag::Added => code == 'A',
        StatusFlag::Modified => code == 'M' || code == 'T',
        StatusFlag::Deleted => code == 'D',
    }
}

/// Whether one of the two codes of a line, that of the index or that of the
/// working tree, names a state.
pub open spec fn named(index: char, worktree: char, flag: StatusFlag) -> bool {
    code_names(index, flag) || code_names(worktree, flag)
}

/// The rank of a state among the states that the codes of one line may
/// name: the lower wins.
pub open spec fn rank(flag: StatusFlag) -> nat {
    match flag {
        StatusFlag::Untracked => 0,
        StatusFlag::Added => 1,
        StatusFlag::Modified => 2,
        StatusFlag::Deleted => 3,
    }
}

/// Whether the codes of a line name no state of a lower rank than `flag`.
pub open spec fn no_lower_named(index: char, worktree: char, flag: StatusFlag) -> bool {
    forall|other: StatusFlag| rank(other) < rank(flag) ==> !named(index, worktree, other)
}

/// The state of a path by the two codes of its line: of the states that
/// the codes name, the one of the lowest rank; none where they name none.
pub open spec fn flag_of(index: char, worktree: char) -> Option<StatusFlag> {
    if named(index, worktree, StatusFlag::Untracked) {
        Some(StatusFlag::Untracked)
    } else if named(index, worktree, StatusFlag::Added) {
        Some(StatusFlag::Added)
    } else if named(index, worktree, StatusFlag::Modified) {
        Some(StatusFlag::Modified)
    } else if named(index, worktree, StatusFlag::Deleted) {
        Some(StatusFlag::Deleted)
    } else {
        None
    }
}

/// A path has exactly one state, and the first match wins: the state of a
/// line is a state that its codes name, and they name none of a lower rank;
/// a line has no state only where its codes name none.
pub proof fn lemma_first_match_wins(index: char, worktree: char, flag: StatusFlag)
    ensures
        flag_of(index, worktree) == Some(flag) <==> named(index, worktree, flag) && no_lower_named(
            index,
            worktree,
            flag,
        ),
        flag_of(index, worktree) is None <==> forall|any: StatusFlag|
            !named(index, worktree, any),
{
}

/// The path that a line names: what follows its first three characters. A
/// line that ends before its fourth character names the empty path.
pub open spec fn path_of(line: Seq<char>) -> Seq<char> {
    if line.len() >= 3 {
        line.skip(3)
    } else {
        Seq::empty()
    }
}

/// The entry that a line of the listing stands for, if its codes name a
/// state; a line too short to hold two codes stands for none. A line whose
/// codes name a state counts even where no path follows them.
pub open spec fn entry_of(line: Seq<char>) -> Option<StatusEntryView> {
    if line.len() < 2 {
        None
    } else {
        match flag_of(line[0], line[1]) {
            Some(status) => Some(StatusEntryView { path: path_of(line), status }),
            None => None,
        }
    }
}

/// The entries that the lines stand for, in their order.
pub open spec fn entries_of(lines: Seq<Seq<char>>) -> Seq<StatusEntryView>
    decreases lines.len(),
{
    if lines.len() == 0 {
        Seq::empty()
    } else {
        let before = entries_of(lines.drop_last());
        match entry_of(lines.last()) {
            Some(entry) => before.push(entry),
            None => before,
        }
    }
}

/// The entries that a listing stands for.
pub open spec fn status_of(listing: Seq<char>) -> Seq<StatusEntryView> {
    entries_of(lines(listing))
}

/// The entries of the working tree, by the outcome of asking for them.
/// Where git reports failure there are none.
pub open spec fn status_result(outcome: Result<Seq<u8>, GitErrorView>) -> Result<
    Seq<StatusEntryView>,
    GitErrorView,
> {
    answer(outcome, |listing: Seq<char>| Ok(status_of(listing)), Ok(Seq::empty()))
}

/// What a result of `status` stands for.
pub open spec fn status_view(r: Result<Vec<StatusEntry>, GitError>) -> Result<
    Seq<StatusEntryView>,
    GitErrorView,
> {
    match r {
        Ok(entries) => Ok(entry_views(entries@)),
        Err(e) => Err(e@),
    }
}

/// Decides [`flag_of`].
pub fn flag(index: char, worktree: char) -> (r: Option<StatusFlag>)
    ensures
        r == flag_of(index, worktree),
{
    if index == '?' || worktree == '?' {
        Some(StatusFlag::Untracked)
    } else if index == 'A' || worktree == 'A' {
        Some(StatusFlag::Added)
    } else if index == 'M' || worktree == 'M' || index == 'T' || worktree == 'T' {
        Some(StatusFlag::Modified)
    } else if index == 'D' || worktree == 'D' {
        Some(StatusFlag::Deleted)
    } else {
        None
    }
}

/// The entry that `line` stands for.
pub fn entry(line: &[char]) -> (r: Option<StatusEntry>)
    ensures
        match r {
            Some(e) => entry_of(line@) == Some(e@),
            None => entry_of(line@) is None,
        },
{
    if line.len() < 2 {
        return None;
    }
    match flag(line[0], line[1]) {
        Some(status) => {
            let path = if line.len() >= 3 {
                string(slice(line, 3, line.len()).as_slice())
            } else {
                String::new()
            };
            Some(StatusEntry { path, status })
        },
        None => None,
    }
}

/// The entries that a listing stands for.
pub fn parse_status(listing: &str) -> (ret: Vec<StatusEntry>)
    ensures
        entry_views(ret@) == status_of(listing@),
{
    let text = chars(listing);
    let all = split_lines(text.as_slice());
    let mut ret: Vec<StatusEntry> = Vec::new();
    let mut i: usize = 0;
    while i < all.len()
        invariant
            i <= all.len(),
            line_views(all@) == lines(listing@),
            entry_views(ret@) == entries_of(line_views(all@).take(i as int)),
        decreases all.len() - i,
    {
        let ghost upto = line_views(all@).take(i + 1);
        assert(upto.drop_last() == line_views(all@).take(i as int));
        match entry(all[i].as_slice()) {
            Some(e) => {
                ret.push(e);
            },
            None => {},
        }
        i += 1;
    }
    assert(line_views(all@).take(i as int) == line_views(all@));
    ret
}

/// The entries of the working tree that differ from the commit, from the
/// outcome of
/// `git status --porcelain --untracked-files=all --ignore-submodules=all`:
/// one for each line whose codes name a state, in the order of the lines.
/// There are none where git reported failure. Fails only with the outcome's
/// own error where that is fatal, and with `Utf8` where the output is no
/// text.
pub fn status(outcome: Result<Vec<u8>, GitError>) -> (r: Result<Vec<StatusEntry>, GitError>)
    ensures
        status_view(r) == status_result(outcome_view(outcome)),
{
    match read_outcome(outcome) {
        Ok(Some(info)) => Ok(parse_status(info.as_str())),
        Ok(None) => {
            let ret: Vec<StatusEntry> = Vec::new();
            assert(entry_views(ret@) == Seq::<StatusEntryView>::empty());
            Ok(ret)
        },
        Err(e) => Err(e),
    }
}

} // verus!
