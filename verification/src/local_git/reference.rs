//! A reference of a local repository, resolved by `git rev-parse`.
use vstd::prelude::*;

use super::LocalGitRepository;
use crate::repos::Commit;
use crate::text::{lit, strings_view, trim};
use super::command_text;

verus! {

/// A reference to resolve.
#[derive(Clone, Debug, PartialEq, Eq)]
pub struct LocalGitReference {
    repository: LocalGitRepository,
    reference: String,
}

pub struct LocalGitReferenceView {
    pub repository: Seq<char>,
    pub reference: Seq<char>,
}

impl View for LocalGitReference {
    type V = LocalGitReferenceView;

    closed spec fn view(&self) -> LocalGitReferenceView {
        LocalGitReferenceView { repository: self.repository.path@, reference: self.reference@ }
    }
}

impl LocalGitReference {
    pub fn make(repository: LocalGitRepository, reference: &str) -> (r: Self)
        ensures
            r@ == (LocalGitReferenceView { repository: repository.path@, reference: reference@ }),
    {
        LocalGitReference { repository, reference: lit(reference) }
    }

    pub fn repository(&self) -> (r: &LocalGitRepository)
        ensures
            r.path@ == self@.repository,
    {
        &self.repository
    }

    /// The arguments of `git rev-parse` for the reference.
    pub fn arguments(&self) -> (r: Vec<String>)
        ensures
            strings_view(r@) == seq!["rev-parse"@, self@.reference],
    {
        let v = vec![lit("rev-parse"), self.reference.clone()];
        assert(strings_view(v@) =~= seq!["rev-parse"@, self@.reference]);
        v
    }

    /// The sha that the command printed.
    pub fn sha(&self, stdout: &str) -> (r: String)
        ensures
            r@ == trim(stdout@),
    {
        command_text(stdout)
    }

    /// The commit that the command printed.
    pub fn commit(&self, stdout: &str) -> (r: Commit)
        ensures
            r@ == trim(stdout@),
    {
        Commit::from_string(self.sha(stdout))
    }
}

} // verus!
