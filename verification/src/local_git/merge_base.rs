//! The merge base of two references, as `git merge-base` finds it.
use vstd::prelude::*;

use super::LocalGitRepository;
use super::command_text;
use crate::error::{invalid_input, CognitionResult, ErrorView};
use crate::text::{lit, strings_view, trim};
use super::merge::opt_chars;

verus! {

/// The two references whose merge base to find, given one after the other.
#[derive(Clone, Debug, PartialEq, Eq)]
pub struct LocalGitMergeBase {
    repository: LocalGitRepository,
    reference: Option<String>,
    other_reference: Option<String>,
}

pub struct LocalGitMergeBaseView {
    pub repository: Seq<char>,
    pub reference: Option<Seq<char>>,
    pub other_reference: Option<Seq<char>>,
}

impl View for LocalGitMergeBase {
    type V = LocalGitMergeBaseView;

    closed spec fn view(&self) -> LocalGitMergeBaseView {
        LocalGitMergeBaseView {
            repository: self.repository.path@,
            reference: opt_chars(self.reference),
            other_reference: opt_chars(self.other_reference),
        }
    }
}

impl LocalGitMergeBase {
    pub fn make(repository: LocalGitRepository) -> (r: Self)
        ensures
            r@ == (LocalGitMergeBaseView {
                repository: repository.path@,
                reference: None,
                other_reference: None,
            }),
    {
        LocalGitMergeBase { repository, reference: None, other_reference: None }
    }

    pub fn reference(self, reference: &str) -> (r: Self)
        ensures
            r@ == (LocalGitMergeBaseView { reference: Some(reference@), ..self@ }),
    {
        LocalGitMergeBase { reference: Some(lit(reference)), ..self }
    }

    pub fn and(self, reference: &str) -> (r: Self)
        ensures
            r@ == (LocalGitMergeBaseView { other_reference: Some(reference@), ..self@ }),
    {
        LocalGitMergeBase { other_reference: Some(lit(reference)), ..self }
    }

    pub fn repository(&self) -> (r: &LocalGitRepository)
        ensures
            r.path@ == self@.repository,
    {
        &self.repository
    }

    /// The arguments of `git merge-base`; an error names the reference missing.
    pub fn arguments(&self) -> (r: CognitionResult<Vec<String>>)
        ensures
            match (self@.reference, self@.other_reference) {
                (Some(a), Some(b)) => r matches Ok(v) && strings_view(v@) == seq![
                    "merge-base"@,
                    a,
                    b,
                ],
                (None, _) => r matches Err(e) && e@ == ErrorView::InvalidInput(
                    "missing merge-base reference"@,
                ),
                (Some(_), None) => r matches Err(e) && e@ == ErrorView::InvalidInput(
                    "missing other merge-base reference"@,
                ),
            },
    {
        let a = match &self.reference {
            Some(a) => a.clone(),
            None => {
                return Err(invalid_input("missing merge-base reference"));
            },
        };
        let b = match &self.other_reference {
            Some(b) => b.clone(),
            None => {
                return Err(invalid_input("missing other merge-base reference"));
            },
        };
        let v = vec![lit("merge-base"), a, b];
        assert(strings_view(v@) =~= seq!["merge-base"@, self@.reference->0, self@.other_reference->0]);
        Ok(v)
    }

    /// The merge base that the command printed.
    pub fn get(self, stdout: &str) -> (r: String)
        ensures
            r@ == trim(stdout@),
    {
        command_text(stdout)
    }
}

} // verus!
