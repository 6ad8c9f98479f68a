//! # A testament to the state of a git working tree at the time of a build
//!
//! A build wants to say what it was built from: which commit, which tag and
//! how far past it, which branch, and whether the working tree held changes
//! that no commit knows of. This library reads what git says of these
//! ([`acquire`]), holds it as a [`GitTestament`], and renders it as one line
//! such as `1.0.0+14 (651af89ed 2019-04-02) dirty 4 modifications`.
//!
//! The library never runs git and never reads the environment: it is handed
//! what git wrote and what the build knows, and decides from that.
//!
//! ## Trusted branches
//!
//! A release may have to be built and tested before its tag exists. For
//! that, a branch can be named as trusted: a clean build on that branch is
//! rendered as though the crate's version were the tag of the very commit,
//! instead of being flagged for a tag that does not match the version. See
//! [`GitTestament::_render_with_version`].

pub mod acquire;
pub mod branch;
pub mod commit;
pub mod date;
pub mod describe;
pub mod error;
pub mod info;
pub mod number;
pub mod output;
pub mod status;
pub mod testament;
pub mod text;

pub use acquire::{Acquisition, GitCommand, Progress};
pub use branch::{branch_name, find_git_dir};
pub use commit::{commit_id, parse_record, revparse_single};
pub use describe::{describe, parse_describe};
pub use error::GitError;
pub use info::{
    git_testament, git_testament_macros, macro_content, CommitInfo, GitInformation,
    InvocationInformation, MacroContent, StatusEntry, StatusFlag,
};
pub use output::run_git;
pub use status::{parse_status, status};
pub use testament::{CommitKind, GitModification, GitTestament};
