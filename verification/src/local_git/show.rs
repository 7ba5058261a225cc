//! A file at a revision, as `git show <revision>:<path>` prints it.
use vstd::prelude::*;

use super::LocalGitRepository;
use super::command_text;
use crate::text::{cat3, lit, strings_view, trim};

verus! {

/// A revision whose files to read.
#[derive(Clone, Debug, PartialEq, Eq)]
pub struct LocalGitShow {
    repository: LocalGitRepository,
    revision: String,
}

pub struct LocalGitShowView {
    pub repository: Seq<char>,
    pub revision: Seq<char>,
}

impl View for LocalGitShow {
    type V = LocalGitShowView;

    closed spec fn view(&self) -> LocalGitShowView {
        LocalGitShowView { repository: self.repository.path@, revision: self.revision@ }
    }
}

impl LocalGitShow {
    pub fn make(repository: LocalGitRepository, revision: &str) -> (r: Self)
        ensures
            r@ == (LocalGitShowView { repository: repository.path@, revision: revision@ }),
    {
        LocalGitShow { repository, revision: lit(revision) }
    }

    pub fn repository(&self) -> (r: &LocalGitRepository)
        ensures
            r.path@ == self@.repository,
    {
        &self.repository
    }

    /// The arguments of `git show` for the file at `path`: the object `<revision>:<path>`.
    pub fn file_arguments(&self, path: &str) -> (r: Vec<String>)
        ensures
            strings_view(r@) == seq!["show"@, self@.revision + ":"@ + path@],
    {
        let v = vec![lit("show"), cat3(self.revision.as_str(), ":", path)];
        assert(strings_view(v@) =~= seq!["show"@, self@.revision + ":"@ + path@]);
        v
    }

    /// The text of the file, as the command printed it.
    pub fn file(self, stdout: &str) -> (r: String)
        ensures
            r@ == trim(stdout@),
    {
        command_text(stdout)
    }
}

} // verus!
