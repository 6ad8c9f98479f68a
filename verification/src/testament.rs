//! The testament itself: what was found of the commit, the branch and the
//! working tree, and the one line of text that says it to a human.

use crate::number::{decimal, push_decimal};
use crate::text::{chars, contains, has, same};
use vstd::prelude::*;
use vstd::string::*;

verus! {

/// A modification to a working tree, recorded when the testament was created.
#[derive(Debug)]
pub enum GitModification<'a> {
    /// A file or directory was added but not committed
    Added(&'a [u8]),
    /// A file or directory was removed but not committed
    Removed(&'a [u8]),
    /// A file was modified in some way, either content or permissions
    Modified(&'a [u8]),
    /// A file or directory was present but untracked
    Untracked(&'a [u8]),
}

/// The kind of commit available at the point that the testament was created.
#[derive(Debug)]
pub enum CommitKind<'a> {
    /// No repository was present.  Instead the crate's version and the
    /// build date are recorded.
    NoRepository(&'a str, &'a str),
    /// No commit was present, though it was a repository.  Instead the crate's
    /// version and the build date are recorded.
    NoCommit(&'a str, &'a str),
    /// There are no tags in the repository in the history of the commit.
    /// The commit hash and commit date are recorded.
    NoTags(&'a str, &'a str),
    /// There were tags in the history of the commit.
    /// The tag name, commit hash, commit date, and distance from the tag to
    /// the commit are recorded.
    FromTag(&'a str, &'a str, &'a str, usize),
}

/// A testament to the state of a git repository when a crate is built.
///
/// It holds the commit from which the crate was built, the modifications to
/// the working tree that make the build "dirty", and the branch that was
/// checked out. [`GitTestament::to_string`] gives the line that is meant for
/// humans, such as `1.0.0 (763aa159d 2019-04-02)` for a clean build from a
/// tag, or `1.0.0+14 (651af89ed 2019-04-02) dirty 4 modifications`.
#[derive(Debug)]
pub struct GitTestament<'a> {
    pub commit: CommitKind<'a>,
    pub modifications: &'a [GitModification<'a>],
    pub branch_name: Option<&'a str>,
}

/// What a [`GitModification`] stands for: the kind of change and the bytes of
/// the path.
pub enum ModificationView {
    Added(Seq<u8>),
    Removed(Seq<u8>),
    Modified(Seq<u8>),
    Untracked(Seq<u8>),
}

/// What a [`CommitKind`] stands for.
pub enum CommitView {
    /// The crate's version and the build date.
    NoRepository(Seq<char>, Seq<char>),
    /// The crate's version and the build date.
    NoCommit(Seq<char>, Seq<char>),
    /// The commit's hash and date.
    NoTags(Seq<char>, Seq<char>),
    /// The tag's name, the commit's hash and date, the commits since the tag.
    FromTag(Seq<char>, Seq<char>, Seq<char>, nat),
}

/// What a [`GitTestament`] stands for.
pub struct TestamentView {
    pub commit: CommitView,
    pub modifications: Seq<ModificationView>,
    pub branch_name: Option<Seq<char>>,
}

impl<'a> View for GitModification<'a> {
    type V = ModificationView;

    open spec fn view(&self) -> ModificationView {
        match *self {
            GitModification::Added(path) => ModificationView::Added(path@),
            GitModification::Removed(path) => ModificationView::Removed(path@),
            GitModification::Modified(path) => ModificationView::Modified(path@),
            GitModification::Untracked(path) => ModificationView::Untracked(path@),
        }
    }
}

impl<'a> View for CommitKind<'a> {
    type V = CommitView;

    open spec fn view(&self) -> CommitView {
        match *self {
            CommitKind::NoRepository(version, date) => CommitView::NoRepository(version@, date@),
            CommitKind::NoCommit(version, date) => CommitView::NoCommit(version@, date@),
            CommitKind::NoTags(hash, date) => CommitView::NoTags(hash@, date@),
            CommitKind::FromTag(tag, hash, date, distance) => CommitView::FromTag(
                tag@,
                hash@,
                date@,
                distance as nat,
            ),
        }
    }
}

/// The text of an optional string.
pub open spec fn text_of(s: Option<&str>) -> Option<Seq<char>> {
    match s {
        Some(s) => Some(s@),
        None => None,
    }
}

impl<'a> View for GitTestament<'a> {
    type V = TestamentView;

    open spec fn view(&self) -> TestamentView {
        TestamentView {
            commit: self.commit@,
            modifications: self.modifications@.map_values(|m: GitModification<'a>| m@),
            branch_name: text_of(self.branch_name),
        }
    }
}

/// How many characters of a commit's hash are shown.
pub const SHORT_HASH_LEN: usize = 9;

/// The abbreviation of a commit's hash: its first nine characters, or all of
/// it where it has fewer.
pub open spec fn short_hash(hash: Seq<char>) -> Seq<char> {
    if hash.len() >= SHORT_HASH_LEN {
        hash.take(SHORT_HASH_LEN as int)
    } else {
        hash
    }
}

/// The text that stands for a commit.
pub open spec fn commit_text(commit: CommitView) -> Seq<char> {
    match commit {
        CommitView::NoRepository(version, date) => version + " ("@ + date + ")"@,
        CommitView::NoCommit(version, date) => version + " (uncommitted "@ + date + ")"@,
        CommitView::NoTags(hash, date) => "unknown ("@ + short_hash(hash) + " "@ + date + ")"@,
        CommitView::FromTag(tag, hash, date, distance) => if distance > 0 {
            tag + "+"@ + decimal(distance) + " ("@ + short_hash(hash) + " "@ + date + ")"@
        } else {
            tag + " ("@ + short_hash(hash) + " "@ + date + ")"@
        },
    }
}

/// What a testament with `n` modifications says after its commit: nothing
/// for a clean tree, else the count, with "modification" in the plural for
/// more than one.
pub open spec fn dirty_text(n: nat) -> Seq<char> {
    if n == 0 {
        Seq::empty()
    } else if n == 1 {
        " dirty "@ + decimal(n) + " modification"@
    } else {
        " dirty "@ + decimal(n) + " modifications"@
    }
}

/// The text of a testament: its commit, then its modifications.
pub open spec fn testament_text(t: TestamentView) -> Seq<char> {
    commit_text(t.commit) + dirty_text(t.modifications.len())
}

/// Whether the testament is to be trusted to stand at the crate's own
/// version: a trusted branch was named, it is the branch of the testament,
/// and the working tree is clean.
pub open spec fn is_trusted(t: TestamentView, trusted_branch: Option<Seq<char>>) -> bool {
    &&& trusted_branch is Some
    &&& t.branch_name == trusted_branch
    &&& t.modifications.len() == 0
}

/// The testament that a trusted one is shown as: tagged with the crate's
/// version, at no distance.
pub open spec fn trusted_view(t: TestamentView, pkg_version: Seq<char>) -> TestamentView {
    match t.commit {
        CommitView::FromTag(_, hash, date, _) => TestamentView {
            commit: CommitView::FromTag(pkg_version, hash, date, 0),
            ..t
        },
        _ => t,
    }
}

/// The text of a testament held against the crate's version. Only a tagged
/// commit is: where it is trusted, it is shown as [`trusted_view`]; else as
/// it is where the tag holds the version, and behind the version and ` :: `
/// where it does not.
pub open spec fn versioned_text(
    t: TestamentView,
    pkg_version: Seq<char>,
    trusted_branch: Option<Seq<char>>,
) -> Seq<char> {
    match t.commit {
        CommitView::FromTag(tag, _, _, _) => if is_trusted(t, trusted_branch) {
            testament_text(trusted_view(t, pkg_version))
        } else if contains(tag, pkg_version) {
            testament_text(t)
        } else {
            pkg_version + " :: "@ + testament_text(t)
        },
        _ => testament_text(t),
    }
}

/// Rendering is determined by what is rendered: two testaments that stand
/// for the same thing, held against the same version and the same trusted
/// branch, have the same text, with the version and without.
pub proof fn lemma_rendering_is_determined(
    a: GitTestament,
    b: GitTestament,
    version_a: &str,
    version_b: &str,
    trusted_a: Option<&str>,
    trusted_b: Option<&str>,
)
    requires
        a@ == b@,
        version_a@ == version_b@,
        text_of(trusted_a) == text_of(trusted_b),
    ensures
        testament_text(a@) == testament_text(b@),
        versioned_text(a@, version_a@, text_of(trusted_a)) == versioned_text(
            b@,
            version_b@,
            text_of(trusted_b),
        ),
{
}

/// A clean tree adds nothing to the text of the commit; one modification adds
/// ` dirty 1 modification`; `n` of them, for `n` above one, add ` dirty `,
/// the digits of `n` and ` modifications`.
pub proof fn lemma_plural(t: TestamentView)
    ensures
        t.modifications.len() == 0 ==> testament_text(t) == commit_text(t.commit),
        t.modifications.len() == 1 ==> testament_text(t) == commit_text(t.commit)
            + " dirty 1 modification"@,
        t.modifications.len() >= 2 ==> testament_text(t) == commit_text(t.commit) + " dirty "@
            + decimal(t.modifications.len()) + " modifications"@,
{
    reveal_strlit(" dirty ");
    reveal_strlit(" modification");
    reveal_strlit(" dirty 1 modification");
}

/// The crate's version takes the place of the tag only where both hold: the
/// testament is on the trusted branch, and its tree is clean. There the text
/// is that of the commit tagged with the version at no distance. Where either
/// fails, or no trusted branch is named, the text is the testament's own,
/// behind the version and ` :: ` unless the tag holds the version.
pub proof fn lemma_trust(
    t: TestamentView,
    tag: Seq<char>,
    hash: Seq<char>,
    date: Seq<char>,
    distance: nat,
    pkg_version: Seq<char>,
    trusted_branch: Option<Seq<char>>,
)
    requires
        t.commit == CommitView::FromTag(tag, hash, date, distance),
    ensures
        trusted_branch is Some && t.branch_name == trusted_branch && t.modifications.len() == 0
            ==> versioned_text(t, pkg_version, trusted_branch) == commit_text(
            CommitView::FromTag(pkg_version, hash, date, 0),
        ),
        trusted_branch is None || t.branch_name != trusted_branch || t.modifications.len() > 0
            ==> versioned_text(t, pkg_version, trusted_branch) == (if contains(tag, pkg_version) {
            testament_text(t)
        } else {
            pkg_version + " :: "@ + testament_text(t)
        }),
{
}

/// The abbreviation of `hash`.
fn short(hash: &str) -> (r: &str)
    ensures
        r@ == short_hash(hash@),
{
    if hash.unicode_len() >= SHORT_HASH_LEN {
        hash.substring_char(0, SHORT_HASH_LEN)
    } else {
        hash
    }
}

/// Writes ` (`, the abbreviated hash, a space, the date and `)`.
fn push_commit(out: &mut String, hash: &str, date: &str)
    ensures
        final(out)@ == old(out)@ + " ("@ + short_hash(hash@) + " "@ + date@ + ")"@,
{
    out.append(" (");
    out.append(short(hash));
    out.append(" ");
    out.append(date);
    out.append(")");
}

impl<'a> CommitKind<'a> {
    /// The text that stands for this commit.
    pub fn to_string(&self) -> (r: String)
        ensures
            r@ == commit_text(self@),
    {
        let mut out = String::new();
        match *self {
            CommitKind::NoRepository(crate_ver, build_date) => {
                out.append(crate_ver);
                out.append(" (");
                out.append(build_date);
                out.append(")");
            },
            CommitKind::NoCommit(crate_ver, build_date) => {
                out.append(crate_ver);
                out.append(" (uncommitted ");
                out.append(build_date);
                out.append(")");
            },
            CommitKind::NoTags(commit, when) => {
                out.append("unknown");
                push_commit(&mut out, commit, when);
                proof {
                    reveal_strlit("unknown");
                    reveal_strlit(" (");
                    reveal_strlit("unknown (");
                }
            },
            CommitKind::FromTag(tag, commit, when, depth) => {
                out.append(tag);
                if depth > 0 {
                    out.append("+");
                    push_decimal(&mut out, depth);
                }
                push_commit(&mut out, commit, when);
            },
        }
        out
    }
}

impl<'a> GitTestament<'a> {
    /// The testament of nothing: no repository, no modification, no branch,
    /// with `unknown` for the version and for the date.
    pub fn empty() -> (r: GitTestament<'static>)
        ensures
            r@ == (TestamentView {
                commit: CommitView::NoRepository("unknown"@, "unknown"@),
                modifications: Seq::empty(),
                branch_name: None,
            }),
    {
        let r = GitTestament {
            commit: CommitKind::NoRepository("unknown", "unknown"),
            modifications: &[],
            branch_name: None,
        };
        assert(r@.modifications =~= Seq::empty());
        r
    }

    /// The text of this testament.
    pub fn to_string(&self) -> (r: String)
        ensures
            r@ == testament_text(self@),
    {
        let mut out = self.commit.to_string();
        let n = self.modifications.len();
        if n > 0 {
            out.append(" dirty ");
            push_decimal(&mut out, n);
            out.append(" modification");
            if n > 1 {
                out.append("s");
            }
        }
        proof {
            reveal_strlit(" modification");
            reveal_strlit("s");
            reveal_strlit(" modifications");
        }
        out
    }

    /// Whether this testament is to be trusted to stand at the crate's own
    /// version.
    pub fn trusts(&self, trusted_branch: Option<&str>) -> (r: bool)
        ensures
            r == is_trusted(self@, text_of(trusted_branch)),
    {
        match trusted_branch {
            Some(trusted) => match self.branch_name {
                Some(branch) => {
                    if same(chars(branch).as_slice(), chars(trusted).as_slice()) {
                        self.modifications.len() == 0
                    } else {
                        false
                    }
                },
                None => false,
            },
            None => false,
        }
    }

    /// The text of this testament held against the crate's version
    /// `pkg_version`, with `trusted_branch` as the branch whose clean builds
    /// are shown at that version whatever the tag.
    pub fn _render_with_version(
        &self,
        pkg_version: &str,
        trusted_branch: Option<&'static str>,
    ) -> (r: String)
        ensures
            r@ == versioned_text(self@, pkg_version@, text_of(trusted_branch)),
    {
        self.render_trusting(pkg_version, trusted_branch)
    }

    /// As [`GitTestament::_render_with_version`], for a trusted branch whose
    /// name was not known before the program ran.
    pub fn render_trusting(&self, pkg_version: &str, trusted_branch: Option<&str>) -> (r: String)
        ensures
            r@ == versioned_text(self@, pkg_version@, text_of(trusted_branch)),
    {
        match self.commit {
            CommitKind::FromTag(tag, hash, date, _) => {
                if self.trusts(trusted_branch) {
                    // a trusted testament is rendered as its equivalent at the
                    // version
                    let trusted = GitTestament {
                        commit: CommitKind::FromTag(pkg_version, hash, date, 0),
                        modifications: self.modifications,
                        branch_name: self.branch_name,
                    };
                    trusted.to_string()
                } else if has(chars(tag).as_slice(), chars(pkg_version).as_slice()) {
                    self.to_string()
                } else {
                    let mut out = String::new();
                    out.append(pkg_version);
                    out.append(" :: ");
                    out.append(self.to_string().as_str());
                    out
                }
            },
            _ => self.to_string(),
        }
    }
}

} // verus!
