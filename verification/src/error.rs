//! The ways in which asking git can fail.

use vstd::prelude::*;

verus! {

/// Why a question to git has no answer.
#[derive(Debug)]
pub enum GitError {
    /// git could not be launched at all; the text says why.
    Io(String),
    /// git ran and reported failure; the text is what it wrote to its
    /// standard error.
    ExternalTool(String),
    /// git wrote bytes that are not UTF-8.
    Utf8,
    /// There is no working tree around the crate.
    NotARepository,
    /// No commit is checked out.
    NoCommit,
    /// The record of the commit does not name its committer, or not with a
    /// time and an offset, or with a time and an offset that no calendar
    /// date is to be had of.
    MalformedCommitRecord,
    /// The description of the commit is not a tag, a distance and an
    /// abbreviated hash.
    MalformedDescribeOutput,
}

/// What a [`GitError`] stands for.
pub enum GitErrorView {
    Io(Seq<char>),
    ExternalTool(Seq<char>),
    Utf8,
    NotARepository,
    NoCommit,
    MalformedCommitRecord,
    MalformedDescribeOutput,
}

impl View for GitError {
    type V = GitErrorView;

    open spec fn view(&self) -> GitErrorView {
        match *self {
            GitError::Io(reason) => GitErrorView::Io(reason@),
            GitError::ExternalTool(stderr) => GitErrorView::ExternalTool(stderr@),
            GitError::Utf8 => GitErrorView::Utf8,
            GitError::NotARepository => GitErrorView::NotARepository,
            GitError::NoCommit => GitErrorView::NoCommit,
            GitError::MalformedCommitRecord => GitErrorView::MalformedCommitRecord,
            GitError::MalformedDescribeOutput => GitErrorView::MalformedDescribeOutput,
        }
    }
}

impl GitErrorView {
    /// Whether the failure ends the acquisition as a whole: git cannot be
    /// launched, or its output cannot be read as text.
    pub open spec fn is_fatal(self) -> bool {
        self is Io || self is Utf8
    }
}

impl GitError {
    /// Whether the failure ends the acquisition as a whole.
    pub fn is_fatal(&self) -> (r: bool)
        ensures
            r == self@.is_fatal(),
    {
        match self {
            GitError::Io(_) => true,
            GitError::Utf8 => true,
            _ => false,
        }
    }
}

} // verus!
