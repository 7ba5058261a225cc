//! Reading a local git repository: the commands this library asks git to run, and
//! the parsers of what git prints.
use vstd::prelude::*;

use crate::error::{CognitionError, ErrorView};
use crate::text::{chars_of, string_of_all, trim, trimmed};

pub mod blame;
pub mod capabilities;
pub mod clone;
pub mod diff;
pub mod diff_parser;
pub mod log;
pub mod merge;
pub mod merge_base;
pub mod reference;
pub mod remote;
pub mod show;
pub mod status;
pub mod url;
pub mod worktree;

verus! {

/// The text of a git command's standard output, as this library reads it: trimmed.
pub fn command_text(stdout: &str) -> (r: String)
    ensures
        r@ == trim(stdout@),
{
    let chars = chars_of(stdout);
    let t = trimmed(chars.as_slice());
    string_of_all(t.as_slice())
}

/// The error of a git command that failed: its standard error, trimmed.
pub fn command_failure(stderr: &str) -> (r: CognitionError)
    ensures
        r@ == ErrorView::InvalidInput(trim(stderr@)),
{
    CognitionError::InvalidInput(command_text(stderr))
}

/// A repository on disk, named by the path of its working tree.
#[derive(Clone, Debug, PartialEq, Eq)]
pub struct LocalGitRepository {
    pub path: String,
}

impl LocalGitRepository {
    pub fn open(path: &str) -> (r: Self)
        ensures
            r.path@ == path@,
    {
        LocalGitRepository { path: path.to_owned() }
    }

    pub fn diff(&self) -> (r: diff::LocalGitDiff)
        ensures
            r@.repository == self.path@,
            r@.selector == diff::DiffSelectorView::Working,
            r@.paths == Seq::<Seq<char>>::empty(),
            !r@.detect_renames,
            r@.context_lines == 3,
    {
        diff::LocalGitDiff::make(LocalGitRepository { path: self.path.clone() })
    }

    fn copy(&self) -> (r: Self)
        ensures
            r.path@ == self.path@,
    {
        LocalGitRepository { path: self.path.clone() }
    }

    pub fn log(&self) -> (r: log::LocalGitLog)
        ensures
            r@.repository == self.path@,
            r@.range is None,
            r@.since_reference is None,
            r@.paths.len() == 0,
            r@.limit is None,
            r@.skip is None,
    {
        log::LocalGitLog::make(self.copy())
    }

    pub fn blame(&self, path: &str) -> (r: blame::LocalGitBlame)
        ensures
            r@.repository == self.path@,
            r@.path == path@,
            r@.revision == "HEAD"@,
    {
        blame::LocalGitBlame::make(self.copy(), path)
    }

    pub fn merge(&self) -> (r: merge::LocalGitMergeBuilder<
        merge::MissingBase,
        merge::MissingOurs,
        merge::MissingTheirs,
    >)
        ensures
            r@ == (merge::LocalGitMergeView {
                repository: self.path@,
                base: None,
                ours: None,
                theirs: None,
            }),
    {
        merge::LocalGitMergeBuilder::make(self.copy())
    }

    pub fn merge_base(&self) -> (r: merge_base::LocalGitMergeBase)
        ensures
            r@ == (merge_base::LocalGitMergeBaseView {
                repository: self.path@,
                reference: None,
                other_reference: None,
            }),
    {
        merge_base::LocalGitMergeBase::make(self.copy())
    }

    pub fn reference(&self, reference: &str) -> (r: reference::LocalGitReference)
        ensures
            r@ == (reference::LocalGitReferenceView {
                repository: self.path@,
                reference: reference@,
            }),
    {
        reference::LocalGitReference::make(self.copy(), reference)
    }

    pub fn show(&self, revision: &str) -> (r: show::LocalGitShow)
        ensures
            r@ == (show::LocalGitShowView { repository: self.path@, revision: revision@ }),
    {
        show::LocalGitShow::make(self.copy(), revision)
    }

    pub fn worktrees(&self) -> (r: worktree::LocalGitWorktrees)
        ensures
            r@ == self.path@,
    {
        worktree::LocalGitWorktrees::make(self.copy())
    }

    pub fn branch(&self, name: &str) -> (r: remote::LocalGitBranch)
        ensures
            r.repository.path@ == self.path@,
            r.name@ == name@,
    {
        remote::LocalGitBranch { repository: self.copy(), name: name.to_owned() }
    }

    pub fn remote(&self, name: &str) -> (r: remote::LocalGitRemote)
        ensures
            r.repository.path@ == self.path@,
            r.name@ == name@,
    {
        remote::LocalGitRemote { repository: self.copy(), name: name.to_owned() }
    }

    pub fn fetch_head(&self) -> (r: remote::LocalGitFetchHead)
        ensures
            r.repository.path@ == self.path@,
    {
        remote::LocalGitFetchHead { repository: self.copy() }
    }
}

} // verus!
