//! Creating and updating repositories: what each operation asks the backend for, or
//! why it cannot.
use vstd::prelude::*;

use super::resources::{
    opt_str_view, RepositoryDraft, RepositoryDraftBuilder, RepositoryDraftView, RepositoryPatch,
    RepositoryPatchBuilder, RepositoryPatchView, Visibility,
};
use super::{Repo, RepoView};
use crate::error::{invalid_input, CognitionResult, ErrorView};
use crate::text::lit;

verus! {

pub open spec fn repo_opt(r: Option<Repo>) -> Option<RepoView> {
    match r {
        Some(x) => Some(x@),
        None => None,
    }
}

/// What a repository creation was given.
pub struct RepoCreateView {
    pub repo: Option<RepoView>,
    pub visibility: Visibility,
    pub description: Option<Seq<char>>,
}

/// A repository to create over the backend `B`; private unless told otherwise.
pub struct RepoCreateOperation<B> {
    pub repos: B,
    pub repo: Option<Repo>,
    pub visibility: Visibility,
    pub description: Option<String>,
}

impl<B> View for RepoCreateOperation<B> {
    type V = RepoCreateView;

    closed spec fn view(&self) -> RepoCreateView {
        RepoCreateView {
            repo: repo_opt(self.repo),
            visibility: self.visibility,
            description: opt_str_view(self.description),
        }
    }
}

impl<B> RepoCreateOperation<B> {
    pub fn make(repos: B) -> (r: Self)
        ensures
            r.repos == repos,
            r@ == (RepoCreateView { repo: None, visibility: Visibility::Private, description: None }),
    {
        RepoCreateOperation { repos, repo: None, visibility: Visibility::Private, description: None }
    }

    pub fn location(self, repo: Repo) -> (r: Self)
        ensures
            r.repos == self.repos,
            r@ == (RepoCreateView { repo: Some(repo@), ..self@ }),
    {
        RepoCreateOperation { repo: Some(repo), ..self }
    }

    pub fn repo(self, repo: Repo) -> (r: Self)
        ensures
            r.repos == self.repos,
            r@ == (RepoCreateView { repo: Some(repo@), ..self@ }),
    {
        self.location(repo)
    }

    pub fn visibility(self, visibility: Visibility) -> (r: Self)
        ensures
            r.repos == self.repos,
            r@ == (RepoCreateView { visibility, ..self@ }),
    {
        RepoCreateOperation { visibility, ..self }
    }

    pub fn description(self, description: &str) -> (r: Self)
        ensures
            r.repos == self.repos,
            r@ == (RepoCreateView { description: Some(description@), ..self@ }),
    {
        RepoCreateOperation { description: Some(lit(description)), ..self }
    }

    /// The draft to create: the repository is required.
    pub fn create(self) -> (r: CognitionResult<(B, RepositoryDraft)>)
        ensures
            match self@.repo {
                Some(repo) => r matches Ok((b, d)) && b == self.repos && d@ == (RepositoryDraftView {
                    repo,
                    visibility: self@.visibility,
                    description: self@.description,
                }),
                None => r matches Err(e) && e@ == ErrorView::InvalidInput(
                    "repository is required"@,
                ),
            },
    {
        let repo = match self.repo {
            Some(repo) => repo,
            None => {
                return Err(invalid_input("repository is required"));
            },
        };
        let mut draft = RepositoryDraftBuilder::make(repo).visibility(self.visibility);
        if let Some(d) = &self.description {
            draft = draft.description(d.as_str());
        }
        Ok((self.repos, draft.get()))
    }
}

/// What a repository update was given.
pub struct RepoUpdateView {
    pub repo: Option<RepoView>,
    pub visibility: Option<Visibility>,
    pub description: Option<Seq<char>>,
}

/// A repository to update over the backend `B`.
pub struct RepoUpdateOperation<B> {
    pub repos: B,
    pub repo: Option<Repo>,
    pub visibility: Option<Visibility>,
    pub description: Option<String>,
}

impl<B> View for RepoUpdateOperation<B> {
    type V = RepoUpdateView;

    closed spec fn view(&self) -> RepoUpdateView {
        RepoUpdateView {
            repo: repo_opt(self.repo),
            visibility: self.visibility,
            description: opt_str_view(self.description),
        }
    }
}

impl<B> RepoUpdateOperation<B> {
    pub fn make(repos: B) -> (r: Self)
        ensures
            r.repos == repos,
            r@ == (RepoUpdateView { repo: None, visibility: None, description: None }),
    {
        RepoUpdateOperation { repos, repo: None, visibility: None, description: None }
    }

    pub fn location(self, repo: Repo) -> (r: Self)
        ensures
            r.repos == self.repos,
            r@ == (RepoUpdateView { repo: Some(repo@), ..self@ }),
    {
        RepoUpdateOperation { repo: Some(repo), ..self }
    }

    pub fn repo(self, repo: Repo) -> (r: Self)
        ensures
            r.repos == self.repos,
            r@ == (RepoUpdateView { repo: Some(repo@), ..self@ }),
    {
        self.location(repo)
    }

    pub fn visibility(self, visibility: Visibility) -> (r: Self)
        ensures
            r.repos == self.repos,
            r@ == (RepoUpdateView { visibility: Some(visibility), ..self@ }),
    {
        RepoUpdateOperation { visibility: Some(visibility), ..self }
    }

    pub fn description(self, description: &str) -> (r: Self)
        ensures
            r.repos == self.repos,
            r@ == (RepoUpdateView { description: Some(description@), ..self@ }),
    {
        RepoUpdateOperation { description: Some(lit(description)), ..self }
    }

    /// The patch to apply: the repository is required.
    pub fn update(self) -> (r: CognitionResult<(B, RepositoryPatch)>)
        ensures
            match self@.repo {
                Some(repo) => r matches Ok((b, p)) && b == self.repos && p@ == (RepositoryPatchView {
                    repo,
                    visibility: self@.visibility,
                    description: self@.description,
                }),
                None => r matches Err(e) && e@ == ErrorView::InvalidInput(
                    "repository is required"@,
                ),
            },
    {
        let repo = match self.repo {
            Some(repo) => repo,
            None => {
                return Err(invalid_input("repository is required"));
            },
        };
        let mut patch = RepositoryPatchBuilder::make(repo);
        if let Some(v) = self.visibility {
            patch = patch.visibility(v);
        }
        if let Some(d) = &self.description {
            patch = patch.description(d.as_str());
        }
        Ok((self.repos, patch.get()))
    }
}

} // verus!
