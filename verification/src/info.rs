//! What a build learns before it can write a testament: the crate's version
//! and the date, and what git said of the working tree. From these the
//! testament is put together, and the values that a build may embed one by
//! one.

use crate::testament::{
    text_of, versioned_text, CommitKind, CommitView, GitModification, GitTestament,
    ModificationView, TestamentView,
};
use vstd::prelude::*;
use vstd::string::*;
use vstd::utf8::encode_utf8;

verus! {

/// The state of one path of the working tree.
#[derive(Clone, Copy, Debug)]
pub enum StatusFlag {
    Added,
    Deleted,
    Modified,
    Untracked,
}

/// One path of the working tree that differs from the commit.
#[derive(Debug)]
pub struct StatusEntry {
    pub path: String,
    pub status: StatusFlag,
}

/// The commit that is checked out. An empty `tag` says that no tag was found
/// in its history.
#[derive(Debug)]
pub struct CommitInfo {
    pub id: String,
    pub date: String,
    pub tag: String,
    pub distance: usize,
}

/// What git said of the working tree. Without a commit there is no status.
#[derive(Debug)]
pub struct GitInformation {
    pub branch: Option<String>,
    pub commitinfo: Option<CommitInfo>,
    pub status: Vec<StatusEntry>,
}

/// What is known of the build itself: the crate's version and the date.
#[derive(Debug)]
pub struct InvocationInformation {
    pub pkgver: String,
    pub now: String,
}

/// What a [`StatusEntry`] stands for.
pub struct StatusEntryView {
    pub path: Seq<char>,
    pub status: StatusFlag,
}

/// What a [`CommitInfo`] stands for.
pub struct CommitInfoView {
    pub id: Seq<char>,
    pub date: Seq<char>,
    pub tag: Seq<char>,
    pub distance: nat,
}

/// What a [`GitInformation`] stands for.
pub struct GitInformationView {
    pub branch: Option<Seq<char>>,
    pub commitinfo: Option<CommitInfoView>,
    pub status: Seq<StatusEntryView>,
}

/// What an [`InvocationInformation`] stands for.
pub struct InvocationView {
    pub pkgver: Seq<char>,
    pub now: Seq<char>,
}

impl View for StatusEntry {
    type V = StatusEntryView;

    open spec fn view(&self) -> StatusEntryView {
        StatusEntryView { path: self.path@, status: self.status }
    }
}

impl View for CommitInfo {
    type V = CommitInfoView;

    open spec fn view(&self) -> CommitInfoView {
        CommitInfoView {
            id: self.id@,
            date: self.date@,
            tag: self.tag@,
            distance: self.distance as nat,
        }
    }
}

/// The text of an optional owned string.
pub open spec fn string_view(s: Option<String>) -> Option<Seq<char>> {
    match s {
        Some(s) => Some(s@),
        None => None,
    }
}

/// The views of the entries of `entries`.
pub open spec fn entry_views(entries: Seq<StatusEntry>) -> Seq<StatusEntryView> {
    entries.map_values(|e: StatusEntry| e@)
}

impl View for GitInformation {
    type V = GitInformationView;

    open spec fn view(&self) -> GitInformationView {
        GitInformationView {
            branch: string_view(self.branch),
            commitinfo: match self.commitinfo {
                Some(c) => Some(c@),
                None => None,
            },
            status: entry_views(self.status@),
        }
    }
}

impl View for InvocationInformation {
    type V = InvocationView;

    open spec fn view(&self) -> InvocationView {
        InvocationView { pkgver: self.pkgver@, now: self.now@ }
    }
}

impl Clone for StatusEntry {
    fn clone(&self) -> (r: Self)
        ensures
            r@ == self@,
    {
        StatusEntry { path: self.path.clone(), status: self.status }
    }
}

impl Clone for CommitInfo {
    fn clone(&self) -> (r: Self)
        ensures
            r@ == self@,
    {
        CommitInfo {
            id: self.id.clone(),
            date: self.date.clone(),
            tag: self.tag.clone(),
            distance: self.distance,
        }
    }
}

impl Clone for GitInformation {
    fn clone(&self) -> (r: Self)
        ensures
            r@ == self@,
    {
        let mut status: Vec<StatusEntry> = Vec::new();
        let mut i: usize = 0;
        while i < self.status.len()
            invariant
                i <= self.status.len(),
                entry_views(status@) == entry_views(self.status@).take(i as int),
            decreases self.status.len() - i,
        {
            let entry = self.status[i].clone();
            let ghost before = entry_views(status@);
            status.push(entry);
            assert(entry_views(status@) == before.push(self.status@[i as int]@));
            i += 1;
        }
        assert(entry_views(self.status@).take(i as int) == entry_views(self.status@));
        GitInformation {
            branch: copy_of(&self.branch),
            commitinfo: match &self.commitinfo {
                Some(c) => Some(c.clone()),
                None => None,
            },
            status,
        }
    }
}

impl Clone for InvocationInformation {
    fn clone(&self) -> (r: Self)
        ensures
            r@ == self@,
    {
        InvocationInformation { pkgver: self.pkgver.clone(), now: self.now.clone() }
    }
}

impl GitInformationView {
    /// What holds of the information that an acquisition ends with: the
    /// date of the commit is a calendar date, and without a commit there is
    /// no status.
    pub open spec fn well_formed(self) -> bool {
        match self.commitinfo {
            Some(c) => crate::date::is_calendar_date(c.date),
            None => self.status.len() == 0,
        }
    }
}

impl InvocationView {
    /// What holds of the information on a build that was dated by the
    /// library: its date is a calendar date.
    pub open spec fn well_formed(self) -> bool {
        crate::date::is_calendar_date(self.now)
    }
}

/// What optional information on the working tree stands for.
pub open spec fn info_view(gitinfo: Option<&GitInformation>) -> Option<GitInformationView> {
    match gitinfo {
        Some(info) => Some(info@),
        None => None,
    }
}

/// The modification that a status entry is recorded as: the bytes of its
/// path, under the kind that its state names.
pub open spec fn modification_of(entry: StatusEntryView) -> ModificationView {
    let path = encode_utf8(entry.path);
    match entry.status {
        StatusFlag::Untracked => ModificationView::Untracked(path),
        StatusFlag::Added => ModificationView::Added(path),
        StatusFlag::Modified => ModificationView::Modified(path),
        StatusFlag::Deleted => ModificationView::Removed(path),
    }
}

/// The modifications that the entries of a status are recorded as.
pub open spec fn modifications_of(status: Seq<StatusEntryView>) -> Seq<ModificationView> {
    status.map_values(|e: StatusEntryView| modification_of(e))
}

/// The views of the modifications of `mods`.
pub open spec fn modification_views(mods: Seq<GitModification>) -> Seq<ModificationView> {
    mods.map_values(|m: GitModification| m@)
}

/// How a commit is recorded: under its tag where it has one.
pub open spec fn commit_of(c: CommitInfoView) -> CommitView {
    if c.tag.len() > 0 {
        CommitView::FromTag(c.tag, c.id, c.date, c.distance)
    } else {
        CommitView::NoTags(c.id, c.date)
    }
}

/// The testament of a build, with `modifications` for the modifications of a
/// working tree that has a commit. Without a repository it holds the crate's
/// version and the date, and no branch; without a commit the same, and the
/// branch.
pub open spec fn testament_with(
    invocation: InvocationView,
    gitinfo: Option<GitInformationView>,
    modifications: Seq<ModificationView>,
) -> TestamentView {
    match gitinfo {
        None => TestamentView {
            commit: CommitView::NoRepository(invocation.pkgver, invocation.now),
            modifications: Seq::empty(),
            branch_name: None,
        },
        Some(info) => match info.commitinfo {
            None => TestamentView {
                commit: CommitView::NoCommit(invocation.pkgver, invocation.now),
                modifications: Seq::empty(),
                branch_name: info.branch,
            },
            Some(c) => TestamentView {
                commit: commit_of(c),
                modifications: modifications,
                branch_name: info.branch,
            },
        },
    }
}

/// The testament of a build.
pub open spec fn testament_of(
    invocation: InvocationView,
    gitinfo: Option<GitInformationView>,
) -> TestamentView {
    testament_with(
        invocation,
        gitinfo,
        match gitinfo {
            Some(info) => modifications_of(info.status),
            None => Seq::empty(),
        },
    )
}

/// The values that a build may embed one by one.
#[derive(Debug)]
pub struct MacroContent {
    /// The branch that is checked out.
    pub branch: Option<String>,
    /// Whether there is a repository at all.
    pub repo_present: bool,
    /// Whether there is a commit.
    pub commit_present: bool,
    /// Whether there is a tag.
    pub tag_present: bool,
    /// The commit's hash, or the crate's version without a commit.
    pub commit_hash: String,
    /// The commit's date, or the date of the build without a commit.
    pub commit_date: String,
    /// The tag's name, or the crate's version without a tag.
    pub tag_name: String,
    /// The number of commits since the tag, zero without one.
    pub tag_distance: usize,
}

/// What a [`MacroContent`] stands for.
pub struct MacroContentView {
    pub branch: Option<Seq<char>>,
    pub repo_present: bool,
    pub commit_present: bool,
    pub tag_present: bool,
    pub commit_hash: Seq<char>,
    pub commit_date: Seq<char>,
    pub tag_name: Seq<char>,
    pub tag_distance: nat,
}

impl View for MacroContent {
    type V = MacroContentView;

    open spec fn view(&self) -> MacroContentView {
        MacroContentView {
            branch: string_view(self.branch),
            repo_present: self.repo_present,
            commit_present: self.commit_present,
            tag_present: self.tag_present,
            commit_hash: self.commit_hash@,
            commit_date: self.commit_date@,
            tag_name: self.tag_name@,
            tag_distance: self.tag_distance as nat,
        }
    }
}

impl Clone for MacroContent {
    fn clone(&self) -> (r: Self)
        ensures
            r@ == self@,
    {
        MacroContent {
            branch: copy_of(&self.branch),
            repo_present: self.repo_present,
            commit_present: self.commit_present,
            tag_present: self.tag_present,
            commit_hash: self.commit_hash.clone(),
            commit_date: self.commit_date.clone(),
            tag_name: self.tag_name.clone(),
            tag_distance: self.tag_distance,
        }
    }
}

/// The values to embed for a build. Where a fact is absent its value falls
/// back: the crate's version for the hash and the tag, the date of the build
/// for the commit's date, zero for the distance.
pub open spec fn macros_of(
    invocation: InvocationView,
    gitinfo: Option<GitInformationView>,
) -> MacroContentView {
    let fallback = MacroContentView {
        branch: None,
        repo_present: false,
        commit_present: false,
        tag_present: false,
        commit_hash: invocation.pkgver,
        commit_date: invocation.now,
        tag_name: invocation.pkgver,
        tag_distance: 0,
    };
    match gitinfo {
        None => fallback,
        Some(info) => match info.commitinfo {
            None => MacroContentView { branch: info.branch, repo_present: true, ..fallback },
            Some(c) => if c.tag.len() > 0 {
                MacroContentView {
                    branch: info.branch,
                    repo_present: true,
                    commit_present: true,
                    tag_present: true,
                    commit_hash: c.id,
                    commit_date: c.date,
                    tag_name: c.tag,
                    tag_distance: c.distance,
                }
            } else {
                MacroContentView {
                    branch: info.branch,
                    repo_present: true,
                    commit_present: true,
                    commit_hash: c.id,
                    commit_date: c.date,
                    ..fallback
                }
            },
        },
    }
}

/// The values to embed say what the testament says: the same branch; a
/// repository, a commit and a tag exactly where the testament is of one;
/// and for the hash, the date, the tag and the distance what the testament
/// holds, with the crate's version in place of a tag that is missing.
pub proof fn lemma_macros_agree_with_testament(
    invocation: InvocationView,
    gitinfo: Option<GitInformationView>,
)
    ensures
        ({
            let macros = macros_of(invocation, gitinfo);
            let testament = testament_of(invocation, gitinfo);
            &&& macros.branch == testament.branch_name
            &&& macros.repo_present == !(testament.commit is NoRepository)
            &&& macros.commit_present == (testament.commit is NoTags || testament.commit is FromTag)
            &&& macros.tag_present == (testament.commit is FromTag)
            &&& match testament.commit {
                CommitView::NoRepository(version, date) => {
                    &&& macros.commit_hash == version
                    &&& macros.commit_date == date
                    &&& macros.tag_name == version
                    &&& macros.tag_distance == 0
                },
                CommitView::NoCommit(version, date) => {
                    &&& macros.commit_hash == version
                    &&& macros.commit_date == date
                    &&& macros.tag_name == version
                    &&& macros.tag_distance == 0
                },
                CommitView::NoTags(hash, date) => {
                    &&& macros.commit_hash == hash
                    &&& macros.commit_date == date
                    &&& macros.tag_name == invocation.pkgver
                    &&& macros.tag_distance == 0
                },
                CommitView::FromTag(tag, hash, date, distance) => {
                    &&& macros.commit_hash == hash
                    &&& macros.commit_date == date
                    &&& macros.tag_name == tag
                    &&& macros.tag_distance == distance
                },
            }
        }),
{
}

/// A copy of an optional string.
fn copy_of(s: &Option<String>) -> (r: Option<String>)
    ensures
        string_view(r) == string_view(*s),
{
    match s {
        Some(s) => Some(s.clone()),
        None => None,
    }
}

/// The text of an optional string, borrowed.
fn borrowed(s: &Option<String>) -> (r: Option<&str>)
    ensures
        text_of(r) == string_view(*s),
{
    match s {
        Some(s) => Some(s.as_str()),
        None => None,
    }
}

impl GitInformation {
    /// The modifications that the status is recorded as, in its order. They
    /// borrow the paths.
    pub fn modifications(&self) -> (r: Vec<GitModification<'_>>)
        ensures
            modification_views(r@) == modifications_of(self@.status),
    {
        let mut out: Vec<GitModification<'_>> = Vec::new();
        let mut i: usize = 0;
        while i < self.status.len()
            invariant
                i <= self.status.len(),
                modification_views(out@) == modifications_of(self@.status.take(i as int)),
            decreases self.status.len() - i,
        {
            let entry = &self.status[i];
            let path = entry.path.as_str().as_bytes();
            let modification = match entry.status {
                StatusFlag::Untracked => GitModification::Untracked(path),
                StatusFlag::Added => GitModification::Added(path),
                StatusFlag::Modified => GitModification::Modified(path),
                StatusFlag::Deleted => GitModification::Removed(path),
            };
            out.push(modification);
            assert(modifications_of(self@.status.take(i + 1)) == modifications_of(
                self@.status.take(i as int),
            ).push(modification_of(self@.status[i as int])));
            i += 1;
        }
        out
    }
}

/// The testament of a build: of `invocation` alone where there is no
/// repository, else of what git said. `modifications` is what
/// [`GitInformation::modifications`] gave for `gitinfo`; the testament holds
/// them where there is a commit.
pub fn git_testament<'a>(
    invocation: &'a InvocationInformation,
    gitinfo: Option<&'a GitInformation>,
    modifications: &'a [GitModification<'a>],
) -> (r: GitTestament<'a>)
    ensures
        r@ == testament_with(invocation@, info_view(gitinfo), modification_views(modifications@)),
        gitinfo matches Some(info) && modification_views(modifications@) == modifications_of(
            info@.status,
        ) ==> r@ == testament_of(invocation@, info_view(gitinfo)),
        gitinfo is None ==> r@ == testament_of(invocation@, None),
{
    let gitinfo = match gitinfo {
        Some(gi) => gi,
        None => {
            let r = GitTestament {
                commit: CommitKind::NoRepository(invocation.pkgver.as_str(), invocation.now.as_str()),
                modifications: &[],
                branch_name: None,
            };
            assert(r@.modifications =~= Seq::empty());
            return r;
        },
    };
    let branch_name = borrowed(&gitinfo.branch);
    let commitinfo = match &gitinfo.commitinfo {
        Some(c) => c,
        None => {
            let r = GitTestament {
                commit: CommitKind::NoCommit(invocation.pkgver.as_str(), invocation.now.as_str()),
                modifications: &[],
                branch_name,
            };
            assert(r@.modifications =~= Seq::empty());
            return r;
        },
    };
    let commit = if !commitinfo.tag.as_str().is_empty() {
        CommitKind::FromTag(
            commitinfo.tag.as_str(),
            commitinfo.id.as_str(),
            commitinfo.date.as_str(),
            commitinfo.distance,
        )
    } else {
        CommitKind::NoTags(commitinfo.id.as_str(), commitinfo.date.as_str())
    };
    let r = GitTestament { commit, modifications, branch_name };
    r
}

/// The values to embed for a build, one by one.
pub fn macro_content(
    invocation: &InvocationInformation,
    gitinfo: Option<&GitInformation>,
) -> (r: MacroContent)
    ensures
        r@ == macros_of(invocation@, info_view(gitinfo)),
{
    let gitinfo = match gitinfo {
        Some(gi) => gi,
        None => {
            return MacroContent {
                branch: None,
                repo_present: false,
                commit_present: false,
                tag_present: false,
                commit_hash: invocation.pkgver.clone(),
                commit_date: invocation.now.clone(),
                tag_name: invocation.pkgver.clone(),
                tag_distance: 0,
            };
        },
    };
    let branch = copy_of(&gitinfo.branch);
    let commitinfo = match &gitinfo.commitinfo {
        Some(c) => c,
        None => {
            return MacroContent {
                branch,
                repo_present: true,
                commit_present: false,
                tag_present: false,
                commit_hash: invocation.pkgver.clone(),
                commit_date: invocation.now.clone(),
                tag_name: invocation.pkgver.clone(),
                tag_distance: 0,
            };
        },
    };
    if commitinfo.tag.as_str().is_empty() {
        MacroContent {
            branch,
            repo_present: true,
            commit_present: true,
            tag_present: false,
            commit_hash: commitinfo.id.clone(),
            commit_date: commitinfo.date.clone(),
            tag_name: invocation.pkgver.clone(),
            tag_distance: 0,
        }
    } else {
        MacroContent {
            branch,
            repo_present: true,
            commit_present: true,
            tag_present: true,
            commit_hash: commitinfo.id.clone(),
            commit_date: commitinfo.date.clone(),
            tag_name: commitinfo.tag.clone(),
            tag_distance: commitinfo.distance,
        }
    }
}

/// The values to embed for a build and the text of its testament, held
/// against the crate's version with `trusted` as the trusted branch.
pub fn git_testament_macros(
    invocation: &InvocationInformation,
    gitinfo: Option<&GitInformation>,
    trusted: Option<&str>,
) -> (r: (MacroContent, String))
    ensures
        r.0@ == macros_of(invocation@, info_view(gitinfo)),
        r.1@ == versioned_text(
            testament_of(invocation@, info_view(gitinfo)),
            invocation@.pkgver,
            text_of(trusted),
        ),
{
    let macros = macro_content(invocation, gitinfo);
    let modifications = match gitinfo {
        Some(gi) => gi.modifications(),
        None => Vec::new(),
    };
    let testament = git_testament(invocation, gitinfo, modifications.as_slice());
    (macros, testament.render_trusting(invocation.pkgver.as_str(), trusted))
}

} // verus!
