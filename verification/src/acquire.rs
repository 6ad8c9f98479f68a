//! Asking git, one question after the other. The library does not run git:
//! it says which command to run next, is handed what became of it, and
//! decides what follows, until it knows what there is to know of the working
//! tree.
//!
//! A failure to launch git, or output that is not text, ends the whole with
//! that error. Where git itself reports failure, only the fact that was
//! asked for is missing: without a working tree there is nothing to find;
//! without a branch, a commit, a tag or a status the rest still stands.

use crate::branch::{branch_name, branch_of, branch_result, find_git_dir, git_dir_result};
use crate::commit::{commit_id, commit_id_result, record_of, revparse_result, revparse_single};
use crate::date::{commit_date, commit_date_text, is_calendar_date};
use crate::describe::{describe, describe_parts, describe_result, parse_describe};
use crate::error::{GitError, GitErrorView};
use crate::info::{
    string_view, CommitInfo, CommitInfoView, GitInformation, GitInformationView,
};
use crate::output::outcome_view;
use crate::status::{status, status_of, status_result};
use crate::testament::text_of;
use crate::text::{decoded, trim_end};
use vstd::prelude::*;

verus! {

/// A command for git: the directory to run it in, and its arguments.
#[derive(Debug)]
pub struct GitCommand {
    /// The top directory of the working tree, or nothing for the directory
    /// of the crate that is being built.
    pub workdir: Option<String>,
    pub args: Vec<String>,
}

/// What a [`GitCommand`] stands for.
pub struct GitCommandView {
    pub workdir: Option<Seq<char>>,
    pub args: Seq<Seq<char>>,
}

/// The texts of the strings of `args`.
pub open spec fn arg_views(args: Seq<String>) -> Seq<Seq<char>> {
    args.map_values(|arg: String| arg@)
}

impl View for GitCommand {
    type V = GitCommandView;

    open spec fn view(&self) -> GitCommandView {
        GitCommandView { workdir: string_view(self.workdir), args: arg_views(self.args@) }
    }
}

/// How far the acquisition has come: the question that is out, and what the
/// answers so far have told.
#[derive(Debug)]
pub enum Acquisition {
    /// Asked for the top directory of the working tree.
    Root,
    /// Asked which branch `HEAD` is a symbolic reference to.
    Branch { root: String },
    /// Asked for a name for `HEAD`, which is no symbolic reference.
    BranchByName { root: String },
    /// Asked for the id of the commit at `HEAD`.
    Head { root: String, branch: Option<String> },
    /// Asked for the raw record of the commit.
    Record { root: String, branch: Option<String>, id: String },
    /// Asked for the description of the commit.
    Tag { root: String, branch: Option<String>, id: String, date: String },
    /// Asked for the status of the working tree.
    Status { root: String, branch: Option<String>, commit: CommitInfo },
}

/// What an [`Acquisition`] stands for.
pub enum AcquisitionView {
    Root,
    Branch { root: Seq<char> },
    BranchByName { root: Seq<char> },
    Head { root: Seq<char>, branch: Option<Seq<char>> },
    Record { root: Seq<char>, branch: Option<Seq<char>>, id: Seq<char> },
    Tag { root: Seq<char>, branch: Option<Seq<char>>, id: Seq<char>, date: Seq<char> },
    Status { root: Seq<char>, branch: Option<Seq<char>>, commit: CommitInfoView },
}

impl View for Acquisition {
    type V = AcquisitionView;

    open spec fn view(&self) -> AcquisitionView {
        match *self {
            Acquisition::Root => AcquisitionView::Root,
            Acquisition::Branch { root } => AcquisitionView::Branch { root: root@ },
            Acquisition::BranchByName { root } => AcquisitionView::BranchByName { root: root@ },
            Acquisition::Head { root, branch } => AcquisitionView::Head {
                root: root@,
                branch: string_view(branch),
            },
            Acquisition::Record { root, branch, id } => AcquisitionView::Record {
                root: root@,
                branch: string_view(branch),
                id: id@,
            },
            Acquisition::Tag { root, branch, id, date } => AcquisitionView::Tag {
                root: root@,
                branch: string_view(branch),
                id: id@,
                date: date@,
            },
            Acquisition::Status { root, branch, commit } => AcquisitionView::Status {
                root: root@,
                branch: string_view(branch),
                commit: commit@,
            },
        }
    }
}

/// What comes after an answer: another question, or the end.
#[derive(Debug)]
pub enum Progress {
    /// The command of this state is to be run next.
    Ask(Acquisition),
    /// All is known that can be, or nothing can be.
    Done(Result<GitInformation, GitError>),
}

/// What a [`Progress`] stands for.
pub enum ProgressView {
    Ask(AcquisitionView),
    Done(Result<GitInformationView, GitErrorView>),
}

impl View for Progress {
    type V = ProgressView;

    open spec fn view(&self) -> ProgressView {
        match *self {
            Progress::Ask(state) => ProgressView::Ask(state@),
            Progress::Done(Ok(info)) => ProgressView::Done(Ok(info@)),
            Progress::Done(Err(e)) => ProgressView::Done(Err(e@)),
        }
    }
}

/// The command that is out in a state. The status is asked for in the
/// porcelain form, with every untracked file listed by itself rather than
/// under its directory, and with submodules left out.
pub open spec fn command_of(state: AcquisitionView) -> GitCommandView {
    match state {
        AcquisitionView::Root => GitCommandView {
            workdir: None,
            args: seq!["rev-parse"@, "--show-toplevel"@],
        },
        AcquisitionView::Branch { root } => GitCommandView {
            workdir: Some(root),
            args: seq!["symbolic-ref"@, "-q"@, "HEAD"@],
        },
        AcquisitionView::BranchByName { root } => GitCommandView {
            workdir: Some(root),
            args: seq!["name-rev"@, "--name-only"@, "HEAD"@],
        },
        AcquisitionView::Head { root, .. } => GitCommandView {
            workdir: Some(root),
            args: seq!["rev-parse"@, "HEAD"@],
        },
        AcquisitionView::Record { root, id, .. } => GitCommandView {
            workdir: Some(root),
            args: seq!["cat-file"@, "-p"@, id],
        },
        AcquisitionView::Tag { root, id, .. } => GitCommandView {
            workdir: Some(root),
            args: seq!["describe"@, "--tags"@, "--long"@, id],
        },
        AcquisitionView::Status { root, .. } => GitCommandView {
            workdir: Some(root),
            args: seq![
                "status"@,
                "--porcelain"@,
                "--untracked-files=all"@,
                "--ignore-submodules=all"@,
            ],
        },
    }
}

/// The end of an acquisition that found a working tree without a commit.
pub open spec fn without_commit(branch: Option<Seq<char>>) -> ProgressView {
    ProgressView::Done(
        Ok(GitInformationView { branch, commitinfo: None, status: Seq::empty() }),
    )
}

/// What follows once the date of the commit is known, or known to be
/// missing. Without a date there is no commit to speak of.
pub open spec fn next_dated(
    root: Seq<char>,
    branch: Option<Seq<char>>,
    id: Seq<char>,
    date: Option<Seq<char>>,
) -> ProgressView {
    match date {
        Some(date) => ProgressView::Ask(AcquisitionView::Tag { root, branch, id, date }),
        None => without_commit(branch),
    }
}

/// The commit once its description was asked for: with the tag and the
/// distance that `description` names, or without a tag.
pub open spec fn described(
    id: Seq<char>,
    date: Seq<char>,
    description: Option<Seq<char>>,
) -> CommitInfoView {
    let parts = match description {
        Some(text) => describe_parts(text),
        None => None,
    };
    match parts {
        Some((tag, distance)) => CommitInfoView { id, date, tag, distance: distance as nat },
        None => CommitInfoView { id, date, tag: Seq::empty(), distance: 0 },
    }
}

/// What follows the text of an answer in a state.
pub open spec fn next_text(state: AcquisitionView, text: Seq<char>) -> ProgressView {
    match state {
        AcquisitionView::Root => ProgressView::Ask(AcquisitionView::Branch { root: trim_end(text) }),
        AcquisitionView::Branch { root } => ProgressView::Ask(
            AcquisitionView::Head { root, branch: branch_of(text) },
        ),
        AcquisitionView::BranchByName { root } => ProgressView::Ask(
            AcquisitionView::Head { root, branch: branch_of(text) },
        ),
        AcquisitionView::Head { root, branch } => ProgressView::Ask(
            AcquisitionView::Record { root, branch, id: trim_end(text) },
        ),
        AcquisitionView::Record { root, branch, id } => match record_of(text) {
            Some((time, offset)) => next_dated(root, branch, id, commit_date_text(time, offset)),
            None => without_commit(branch),
        },
        AcquisitionView::Tag { root, branch, id, date } => ProgressView::Ask(
            AcquisitionView::Status {
                root,
                branch,
                commit: described(id, date, Some(trim_end(text))),
            },
        ),
        AcquisitionView::Status { root, branch, commit } => ProgressView::Done(
            Ok(GitInformationView { branch, commitinfo: Some(commit), status: status_of(text) }),
        ),
    }
}

/// What follows in a state where git reported failure: the fact that was
/// asked for is missing.
pub open spec fn next_failed(state: AcquisitionView) -> ProgressView {
    match state {
        AcquisitionView::Root => ProgressView::Done(Err(GitErrorView::NotARepository)),
        AcquisitionView::Branch { root } => ProgressView::Ask(
            AcquisitionView::BranchByName { root },
        ),
        AcquisitionView::BranchByName { root } => ProgressView::Ask(
            AcquisitionView::Head { root, branch: None },
        ),
        AcquisitionView::Head { root, branch } => without_commit(branch),
        AcquisitionView::Record { root, branch, id } => without_commit(branch),
        AcquisitionView::Tag { root, branch, id, date } => ProgressView::Ask(
            AcquisitionView::Status { root, branch, commit: described(id, date, None) },
        ),
        AcquisitionView::Status { root, branch, commit } => ProgressView::Done(
            Ok(GitInformationView { branch, commitinfo: Some(commit), status: Seq::empty() }),
        ),
    }
}

/// What follows an answer in a state. An error that is fatal ends the
/// acquisition, as does output that is not UTF-8; any other error is git's
/// own failure.
pub open spec fn next(state: AcquisitionView, outcome: Result<Seq<u8>, GitErrorView>) -> ProgressView {
    match outcome {
        Ok(output) => match decoded(output) {
            Some(text) => next_text(state, text),
            None => ProgressView::Done(Err(GitErrorView::Utf8)),
        },
        Err(e) => if e.is_fatal() {
            ProgressView::Done(Err(e))
        } else {
            next_failed(state)
        },
    }
}

/// Whether git ran and reported failure.
pub open spec fn reported_failure(outcome: Result<Seq<u8>, GitErrorView>) -> bool {
    outcome matches Err(e) && !e.is_fatal()
}

/// The end that an error puts to the question for the commit: the error
/// itself where it is fatal, else a working tree without a commit.
pub open spec fn commit_missing(branch: Option<Seq<char>>, e: GitErrorView) -> ProgressView {
    if e.is_fatal() {
        ProgressView::Done(Err(e))
    } else {
        without_commit(branch)
    }
}

/// In each state, what follows an outcome is what the question of that
/// state makes of it: the fact goes into the next state, a missing fact is
/// done without, and an error that the question keeps ends the acquisition.
pub proof fn lemma_next_asks(state: AcquisitionView, outcome: Result<Seq<u8>, GitErrorView>)
    ensures
        state is Root ==> next(state, outcome) == (match git_dir_result(outcome) {
            Ok(root) => ProgressView::Ask(AcquisitionView::Branch { root }),
            Err(e) => ProgressView::Done(Err(e)),
        }),
        state matches AcquisitionView::Branch { root } ==> next(state, outcome) == (
        if reported_failure(outcome) {
            ProgressView::Ask(AcquisitionView::BranchByName { root })
        } else {
            match branch_result(outcome) {
                Ok(branch) => ProgressView::Ask(AcquisitionView::Head { root, branch }),
                Err(e) => ProgressView::Done(Err(e)),
            }
        }),
        state matches AcquisitionView::BranchByName { root } ==> next(state, outcome) == (
        match branch_result(outcome) {
            Ok(branch) => ProgressView::Ask(AcquisitionView::Head { root, branch }),
            Err(e) => ProgressView::Done(Err(e)),
        }),
        state matches AcquisitionView::Head { root, branch } ==> next(state, outcome) == (
        match commit_id_result(outcome) {
            Ok(id) => ProgressView::Ask(AcquisitionView::Record { root, branch, id }),
            Err(e) => commit_missing(branch, e),
        }),
        state matches AcquisitionView::Record { root, branch, id } ==> next(state, outcome) == (
        match revparse_result(outcome) {
            Ok((time, offset)) => next_dated(root, branch, id, commit_date_text(time, offset)),
            Err(e) => commit_missing(branch, e),
        }),
        state matches AcquisitionView::Tag { root, branch, id, date } ==> next(state, outcome)
            == (match describe_result(outcome) {
            Ok(description) => ProgressView::Ask(
                AcquisitionView::Status { root, branch, commit: described(id, date, description) },
            ),
            Err(e) => ProgressView::Done(Err(e)),
        }),
        state matches AcquisitionView::Status { root, branch, commit } ==> next(state, outcome)
            == (match status_result(outcome) {
            Ok(status) => ProgressView::Done(
                Ok(GitInformationView { branch, commitinfo: Some(commit), status }),
            ),
            Err(e) => ProgressView::Done(Err(e)),
        }),
{
}

/// What a dated commit has to warn of: a time or an offset that no date is
/// to be had of.
pub open spec fn warning_dated(date: Option<Seq<char>>) -> Option<GitErrorView> {
    match date {
        Some(_) => None,
        None => Some(GitErrorView::MalformedCommitRecord),
    }
}

/// What there is to warn of after an outcome: the finding by which a fact is
/// missing although git was launched and wrote text. That is `NoCommit`
/// where git knows of no commit, `MalformedCommitRecord` where the record is
/// unreadable or its time has no date, and `MalformedDescribeOutput` where
/// the description has no parts. Where git has nothing to describe the
/// commit by, or no branch to name, there is nothing to warn of.
pub open spec fn warning(state: AcquisitionView, outcome: Result<Seq<u8>, GitErrorView>) -> Option<
    GitErrorView,
> {
    match state {
        AcquisitionView::Head { .. } => match commit_id_result(outcome) {
            Err(e) => if e.is_fatal() {
                None
            } else {
                Some(e)
            },
            Ok(_) => None,
        },
        AcquisitionView::Record { .. } => match revparse_result(outcome) {
            Err(e) => if e.is_fatal() {
                None
            } else {
                Some(e)
            },
            Ok((time, offset)) => warning_dated(commit_date_text(time, offset)),
        },
        AcquisitionView::Tag { .. } => match describe_result(outcome) {
            Ok(Some(text)) => if describe_parts(text) is None {
                Some(GitErrorView::MalformedDescribeOutput)
            } else {
                None
            },
            _ => None,
        },
        _ => None,
    }
}

/// What an optional error stands for.
pub open spec fn error_view(e: Option<GitError>) -> Option<GitErrorView> {
    match e {
        Some(e) => Some(e@),
        None => None,
    }
}

/// Whether an acquisition has ended with information that lacks a commit.
pub open spec fn ended_without_commit(progress: ProgressView) -> bool {
    progress matches ProgressView::Done(Ok(info)) && info.commitinfo is None
}

/// Whether an acquisition goes on to the status with a commit that lacks a
/// tag.
pub open spec fn goes_on_untagged(progress: ProgressView) -> bool {
    progress matches ProgressView::Ask(AcquisitionView::Status { commit, .. }) && commit.tag.len()
        == 0
}

/// A warning never comes with the failure of the whole. It names one of
/// three findings: for want of a commit or of a readable record the
/// acquisition ends without a commit; for want of a readable description it
/// goes on without a tag.
pub proof fn lemma_warning(state: AcquisitionView, outcome: Result<Seq<u8>, GitErrorView>)
    ensures
        match warning(state, outcome) {
            Some(GitErrorView::NoCommit) => ended_without_commit(next(state, outcome)),
            Some(GitErrorView::MalformedCommitRecord) => ended_without_commit(next(state, outcome)),
            Some(GitErrorView::MalformedDescribeOutput) => goes_on_untagged(next(state, outcome)),
            Some(_) => false,
            None => true,
        },
{
}

/// How many questions a state may still ask at most, its own included.
pub open spec fn questions_left(state: AcquisitionView) -> nat {
    match state {
        AcquisitionView::Root => 7,
        AcquisitionView::Branch { .. } => 6,
        AcquisitionView::BranchByName { .. } => 5,
        AcquisitionView::Head { .. } => 4,
        AcquisitionView::Record { .. } => 3,
        AcquisitionView::Tag { .. } => 2,
        AcquisitionView::Status { .. } => 1,
    }
}

/// Every answer brings the end nearer: the state that follows has fewer
/// questions left, so that an acquisition asks seven questions at most. And
/// the directory that the working tree was found in is never lost.
pub proof fn lemma_next_advances(state: AcquisitionView, outcome: Result<Seq<u8>, GitErrorView>)
    ensures
        next(state, outcome) matches ProgressView::Ask(then) ==> questions_left(then)
            < questions_left(state) && (command_of(state).workdir is Some ==> command_of(
            then,
        ).workdir == command_of(state).workdir),
{
}

/// An acquisition fails as a whole only for want of a working tree, or
/// where git cannot be launched or read.
pub proof fn lemma_next_fails_hard(state: AcquisitionView, outcome: Result<Seq<u8>, GitErrorView>)
    ensures
        next(state, outcome) matches ProgressView::Done(Err(e)) ==> e.is_fatal() || (state
            is Root && e is NotARepository),
{
}

impl AcquisitionView {
    /// What holds of every state that an acquisition comes to: the date of
    /// the commit, once it is known, is a calendar date.
    pub open spec fn well_formed(self) -> bool {
        match self {
            AcquisitionView::Tag { date, .. } => is_calendar_date(date),
            AcquisitionView::Status { commit, .. } => is_calendar_date(commit.date),
            _ => true,
        }
    }
}

/// A well-formed state is followed by a well-formed state, or by
/// well-formed information.
pub proof fn lemma_next_is_well_formed(
    state: AcquisitionView,
    outcome: Result<Seq<u8>, GitErrorView>,
)
    requires
        state.well_formed(),
    ensures
        next(state, outcome) matches ProgressView::Ask(then) ==> then.well_formed(),
        next(state, outcome) matches ProgressView::Done(Ok(info)) ==> info.well_formed(),
{
}

/// What git says to each of the questions that an acquisition may ask.
pub struct Answers {
    /// To the question for the top directory.
    pub top_level: Result<Seq<u8>, GitErrorView>,
    /// To the question for the branch that `HEAD` refers to.
    pub symbolic_ref: Result<Seq<u8>, GitErrorView>,
    /// To the question for a name for `HEAD`.
    pub name_rev: Result<Seq<u8>, GitErrorView>,
    /// To the question for the id of the commit.
    pub rev_parse: Result<Seq<u8>, GitErrorView>,
    /// To the question for the record of the commit.
    pub cat_file: Result<Seq<u8>, GitErrorView>,
    /// To the question for the description of the commit.
    pub describe: Result<Seq<u8>, GitErrorView>,
    /// To the question for the status.
    pub status: Result<Seq<u8>, GitErrorView>,
}

/// What git says to the question of a state.
pub open spec fn answer_in(state: AcquisitionView, answers: Answers) -> Result<
    Seq<u8>,
    GitErrorView,
> {
    match state {
        AcquisitionView::Root => answers.top_level,
        AcquisitionView::Branch { .. } => answers.symbolic_ref,
        AcquisitionView::BranchByName { .. } => answers.name_rev,
        AcquisitionView::Head { .. } => answers.rev_parse,
        AcquisitionView::Record { .. } => answers.cat_file,
        AcquisitionView::Tag { .. } => answers.describe,
        AcquisitionView::Status { .. } => answers.status,
    }
}

/// Where an acquisition ends that is in `state` and is answered by
/// `answers`.
pub open spec fn run(state: AcquisitionView, answers: Answers) -> Result<
    GitInformationView,
    GitErrorView,
>
    decreases questions_left(state),
{
    match next(state, answer_in(state, answers)) {
        ProgressView::Ask(then) => {
            proof {
                lemma_next_advances(state, answer_in(state, answers));
            }
            run(then, answers)
        },
        ProgressView::Done(result) => result,
    }
}

/// The branch that the answers name: by the symbolic reference, or where
/// git reports failure for that, by the name.
pub open spec fn gathered_branch(answers: Answers) -> Result<Option<Seq<char>>, GitErrorView> {
    if reported_failure(answers.symbolic_ref) {
        branch_result(answers.name_rev)
    } else {
        branch_result(answers.symbolic_ref)
    }
}

/// The id and the date of the commit that the answers name; none where the
/// commit is missing, or its record unreadable, or its date not to be had.
pub open spec fn gathered_commit(answers: Answers) -> Result<
    Option<(Seq<char>, Seq<char>)>,
    GitErrorView,
> {
    match (commit_id_result(answers.rev_parse), revparse_result(answers.cat_file)) {
        (Err(e), _) => if e.is_fatal() {
            Err(e)
        } else {
            Ok(None)
        },
        (Ok(_), Err(e)) => if e.is_fatal() {
            Err(e)
        } else {
            Ok(None)
        },
        (Ok(id), Ok((time, offset))) => match commit_date_text(time, offset) {
            Some(date) => Ok(Some((id, date))),
            None => Ok(None),
        },
    }
}

/// What the answers tell of a commit with the id `id` and the date `date`:
/// its tag, and the status of the working tree.
pub open spec fn gathered_tree(
    branch: Option<Seq<char>>,
    id: Seq<char>,
    date: Seq<char>,
    answers: Answers,
) -> Result<GitInformationView, GitErrorView> {
    match describe_result(answers.describe) {
        Err(e) => Err(e),
        Ok(description) => match status_result(answers.status) {
            Err(e) => Err(e),
            Ok(status) => Ok(
                GitInformationView {
                    branch,
                    commitinfo: Some(described(id, date, description)),
                    status,
                },
            ),
        },
    }
}

/// What the answers tell of a working tree on the branch `branch`: the
/// commit, and with a commit the rest.
pub open spec fn gathered_on(branch: Option<Seq<char>>, answers: Answers) -> Result<
    GitInformationView,
    GitErrorView,
> {
    match gathered_commit(answers) {
        Err(e) => Err(e),
        Ok(None) => Ok(GitInformationView { branch, commitinfo: None, status: Seq::empty() }),
        Ok(Some((id, date))) => gathered_tree(branch, id, date, answers),
    }
}

/// What the answers tell of the working tree, all at once. The first fatal
/// error in the order of the questions is the result; a question that is
/// never asked cannot fail.
pub open spec fn gathered(answers: Answers) -> Result<GitInformationView, GitErrorView> {
    match git_dir_result(answers.top_level) {
        Err(e) => Err(e),
        Ok(_) => match gathered_branch(answers) {
            Err(e) => Err(e),
            Ok(branch) => gathered_on(branch, answers),
        },
    }
}

/// Whatever git answers, the information that an acquisition ends with is
/// well formed.
pub proof fn lemma_run_is_well_formed(state: AcquisitionView, answers: Answers)
    requires
        state.well_formed(),
    ensures
        run(state, answers) matches Ok(info) ==> info.well_formed(),
    decreases questions_left(state),
{
    let outcome = answer_in(state, answers);
    lemma_next_is_well_formed(state, outcome);
    lemma_next_advances(state, outcome);
    if let ProgressView::Ask(then) = next(state, outcome) {
        lemma_run_is_well_formed(then, answers);
    }
}

/// From the question for the description on, an acquisition ends with what
/// the answers tell of the tag and the status.
proof fn lemma_run_tree(
    root: Seq<char>,
    branch: Option<Seq<char>>,
    id: Seq<char>,
    date: Seq<char>,
    answers: Answers,
)
    ensures
        run(AcquisitionView::Tag { root, branch, id, date }, answers) == gathered_tree(
            branch,
            id,
            date,
            answers,
        ),
{
    let state = AcquisitionView::Tag { root, branch, id, date };
    lemma_next_asks(state, answers.describe);
    if let ProgressView::Ask(then) = next(state, answers.describe) {
        lemma_next_asks(then, answers.status);
        assert(run(then, answers) == gathered_tree(branch, id, date, answers));
    }
}

/// From the question for the commit on, an acquisition ends with what the
/// answers tell of a working tree on its branch.
proof fn lemma_run_on(root: Seq<char>, branch: Option<Seq<char>>, answers: Answers)
    ensures
        run(AcquisitionView::Head { root, branch }, answers) == gathered_on(branch, answers),
{
    let state = AcquisitionView::Head { root, branch };
    lemma_next_asks(state, answers.rev_parse);
    if let ProgressView::Ask(then) = next(state, answers.rev_parse) {
        lemma_next_asks(then, answers.cat_file);
        if let ProgressView::Ask(AcquisitionView::Tag { root, branch, id, date }) = next(
            then,
            answers.cat_file,
        ) {
            lemma_run_tree(root, branch, id, date, answers);
        }
        assert(run(then, answers) == gathered_on(branch, answers));
    }
}

/// An acquisition that is answered by `answers` from its start ends with
/// what the answers tell all at once: the order of the questions adds
/// nothing but the right to stop early.
pub proof fn lemma_run_gathers(answers: Answers)
    ensures
        run(AcquisitionView::Root, answers) == gathered(answers),
{
    let start = AcquisitionView::Root;
    lemma_next_asks(start, answers.top_level);
    if let ProgressView::Ask(asked) = next(start, answers.top_level) {
        lemma_next_asks(asked, answers.symbolic_ref);
        match next(asked, answers.symbolic_ref) {
            ProgressView::Ask(AcquisitionView::BranchByName { root }) => {
                let by_name = AcquisitionView::BranchByName { root };
                lemma_next_asks(by_name, answers.name_rev);
                if let ProgressView::Ask(AcquisitionView::Head { root, branch }) = next(
                    by_name,
                    answers.name_rev,
                ) {
                    lemma_run_on(root, branch, answers);
                }
                assert(run(by_name, answers) == gathered(answers));
            },
            ProgressView::Ask(AcquisitionView::Head { root, branch }) => {
                lemma_run_on(root, branch, answers);
            },
            _ => {},
        }
        assert(run(asked, answers) == gathered(answers));
    }
}

/// The end of an acquisition that found a working tree without a commit.
fn no_commit(branch: Option<String>) -> (r: Progress)
    ensures
        r@ == without_commit(string_view(branch)),
{
    let info = GitInformation { branch, commitinfo: None, status: Vec::new() };
    assert(info@.status =~= Seq::empty());
    Progress::Done(Ok(info))
}

/// The string `s`, owned.
fn owned(s: &str) -> (r: String)
    ensures
        r@ == s@,
{
    s.to_owned()
}

impl Acquisition {
    /// The state in which an acquisition begins.
    pub fn start() -> (r: Acquisition)
        ensures
            r@ == AcquisitionView::Root,
    {
        Acquisition::Root
    }

    /// The top directory of the working tree, once it is known.
    pub fn root(&self) -> (r: Option<&str>)
        ensures
            text_of(r) == command_of(self@).workdir,
    {
        match self {
            Acquisition::Root => None,
            Acquisition::Branch { root } => Some(root.as_str()),
            Acquisition::BranchByName { root } => Some(root.as_str()),
            Acquisition::Head { root, .. } => Some(root.as_str()),
            Acquisition::Record { root, .. } => Some(root.as_str()),
            Acquisition::Tag { root, .. } => Some(root.as_str()),
            Acquisition::Status { root, .. } => Some(root.as_str()),
        }
    }

    /// The command whose outcome this state waits for.
    pub fn command(&self) -> (r: GitCommand)
        ensures
            r@ == command_of(self@),
    {
        let workdir = match self.root() {
            Some(root) => Some(owned(root)),
            None => None,
        };
        let mut args: Vec<String> = Vec::new();
        match self {
            Acquisition::Root => {
                args.push(owned("rev-parse"));
                args.push(owned("--show-toplevel"));
            },
            Acquisition::Branch { .. } => {
                args.push(owned("symbolic-ref"));
                args.push(owned("-q"));
                args.push(owned("HEAD"));
            },
            Acquisition::BranchByName { .. } => {
                args.push(owned("name-rev"));
                args.push(owned("--name-only"));
                args.push(owned("HEAD"));
            },
            Acquisition::Head { .. } => {
                args.push(owned("rev-parse"));
                args.push(owned("HEAD"));
            },
            Acquisition::Record { id, .. } => {
                args.push(owned("cat-file"));
                args.push(owned("-p"));
                args.push(owned(id.as_str()));
            },
            Acquisition::Tag { id, .. } => {
                args.push(owned("describe"));
                args.push(owned("--tags"));
                args.push(owned("--long"));
                args.push(owned(id.as_str()));
            },
            Acquisition::Status { .. } => {
                args.push(owned("status"));
                args.push(owned("--porcelain"));
                args.push(owned("--untracked-files=all"));
                args.push(owned("--ignore-submodules=all"));
            },
        }
        assert(arg_views(args@) =~= command_of(self@).args);
        GitCommand { workdir, args }
    }

    /// What follows once the date of the commit `id` is known, or known to
    /// be missing, and what there is to warn of.
    pub fn dated(root: String, branch: Option<String>, id: String, date: Option<String>) -> (r: (
        Progress,
        Option<GitError>,
    ))
        ensures
            r.0@ == next_dated(root@, string_view(branch), id@, string_view(date)),
            error_view(r.1) == warning_dated(string_view(date)),
    {
        match date {
            Some(date) => (Progress::Ask(Acquisition::Tag { root, branch, id, date }), None),
            None => (no_commit(branch), Some(GitError::MalformedCommitRecord)),
        }
    }

    /// What follows the outcome of the command of this state, and what there
    /// is to warn of: see [`next`] and [`warning`].
    pub fn step(self, outcome: Result<Vec<u8>, GitError>) -> (r: (Progress, Option<GitError>))
        ensures
            r.0@ == next(self@, outcome_view(outcome)),
            error_view(r.1) == warning(self@, outcome_view(outcome)),
    {
        match self {
            Acquisition::Root => match find_git_dir(outcome) {
                Ok(root) => (Progress::Ask(Acquisition::Branch { root }), None),
                Err(e) => (Progress::Done(Err(e)), None),
            },
            Acquisition::Branch { root } => {
                if failed(&outcome) {
                    (Progress::Ask(Acquisition::BranchByName { root }), None)
                } else {
                    match branch_name(outcome) {
                        Ok(branch) => (Progress::Ask(Acquisition::Head { root, branch }), None),
                        Err(e) => (Progress::Done(Err(e)), None),
                    }
                }
            },
            Acquisition::BranchByName { root } => match branch_name(outcome) {
                Ok(branch) => (Progress::Ask(Acquisition::Head { root, branch }), None),
                Err(e) => (Progress::Done(Err(e)), None),
            },
            Acquisition::Head { root, branch } => match commit_id(outcome) {
                Ok(id) => (Progress::Ask(Acquisition::Record { root, branch, id }), None),
                Err(e) => without(branch, e),
            },
            Acquisition::Record { root, branch, id } => match revparse_single(outcome) {
                Ok((time, offset)) => Acquisition::dated(root, branch, id, commit_date(time, offset)),
                Err(e) => without(branch, e),
            },
            Acquisition::Tag { root, branch, id, date } => match describe(outcome) {
                Ok(Some(description)) => match parse_describe(description.as_str()) {
                    Ok((tag, distance)) => (
                        Progress::Ask(
                            Acquisition::Status {
                                root,
                                branch,
                                commit: CommitInfo { id, date, tag, distance },
                            },
                        ),
                        None,
                    ),
                    Err(e) => (Progress::Ask(untagged(root, branch, id, date)), Some(e)),
                },
                Ok(None) => (Progress::Ask(untagged(root, branch, id, date)), None),
                Err(e) => (Progress::Done(Err(e)), None),
            },
            Acquisition::Status { branch, commit, .. } => match status(outcome) {
                Ok(entries) => (
                    Progress::Done(
                        Ok(GitInformation { branch, commitinfo: Some(commit), status: entries }),
                    ),
                    None,
                ),
                Err(e) => (Progress::Done(Err(e)), None),
            },
        }
    }
}

/// The state that asks for the status of a commit without a tag.
fn untagged(root: String, branch: Option<String>, id: String, date: String) -> (r: Acquisition)
    ensures
        r@ == (AcquisitionView::Status {
            root: root@,
            branch: string_view(branch),
            commit: described(id@, date@, None),
        }),
{
    Acquisition::Status {
        root,
        branch,
        commit: CommitInfo { id, date, tag: String::new(), distance: 0 },
    }
}

/// Whether git ran and reported failure.
fn failed(outcome: &Result<Vec<u8>, GitError>) -> (r: bool)
    ensures
        r == reported_failure(outcome_view(*outcome)),
{
    match outcome {
        Ok(_) => false,
        Err(e) => !e.is_fatal(),
    }
}

/// The end that `e` puts to the question for the commit, and `e` for a
/// warning where it is no end.
fn without(branch: Option<String>, e: GitError) -> (r: (Progress, Option<GitError>))
    ensures
        r.0@ == commit_missing(string_view(branch), e@),
        error_view(r.1) == (if e@.is_fatal() {
            None
        } else {
            Some(e@)
        }),
{
    if e.is_fatal() {
        (Progress::Done(Err(e)), None)
    } else {
        (no_commit(branch), Some(e))
    }
}

} // verus!
