//! Release operations given piece by piece: what each asks the backend for, or why
//! it cannot.
use vstd::prelude::*;

use super::scoped::{draft_with, patch_with};
use super::{release, Release, ReleaseDraft, ReleaseDraftView, ReleaseId, ReleasePatch, ReleasePatchView, ReleaseView};
use crate::error::{invalid_input, CognitionResult, ErrorView};
use crate::repos::resources::opt_str_view;
use crate::repos::{Repo, RepoView};
use crate::text::lit;

verus! {

pub open spec fn opt_repo_view(r: Option<Repo>) -> Option<RepoView> {
    match r {
        Some(x) => Some(x@),
        None => None,
    }
}

/// What a release operation was given.
pub struct ReleaseOperationView {
    pub repo: Option<RepoView>,
    pub id: Option<Seq<char>>,
    pub tag: Option<Seq<char>>,
    pub name: Option<Seq<char>>,
    pub body: Option<Seq<char>>,
}

/// A release to create over the backend `B`.
pub struct ReleaseCreateOperation<B> {
    pub releases: B,
    pub repo: Option<Repo>,
    pub tag: Option<String>,
    pub name: Option<String>,
    pub body: Option<String>,
}

impl<B> View for ReleaseCreateOperation<B> {
    type V = ReleaseOperationView;

    closed spec fn view(&self) -> ReleaseOperationView {
        ReleaseOperationView {
            repo: opt_repo_view(self.repo),
            id: None,
            tag: opt_str_view(self.tag),
            name: opt_str_view(self.name),
            body: opt_str_view(self.body),
        }
    }
}

impl<B> ReleaseCreateOperation<B> {
    pub fn make(releases: B) -> (r: Self)
        ensures
            r.releases == releases,
            r@ == (ReleaseOperationView { repo: None, id: None, tag: None, name: None, body: None }),
    {
        ReleaseCreateOperation { releases, repo: None, tag: None, name: None, body: None }
    }

    pub fn location(self, repo: Repo) -> (r: Self)
        ensures
            r.releases == self.releases,
            r@ == (ReleaseOperationView { repo: Some(repo@), ..self@ }),
    {
        ReleaseCreateOperation { repo: Some(repo), ..self }
    }

    pub fn tag(self, tag: &str) -> (r: Self)
        ensures
            r.releases == self.releases,
            r@ == (ReleaseOperationView { tag: Some(tag@), ..self@ }),
    {
        ReleaseCreateOperation { tag: Some(lit(tag)), ..self }
    }

    pub fn name(self, name: &str) -> (r: Self)
        ensures
            r.releases == self.releases,
            r@ == (ReleaseOperationView { name: Some(name@), ..self@ }),
    {
        ReleaseCreateOperation { name: Some(lit(name)), ..self }
    }

    pub fn body(self, body: &str) -> (r: Self)
        ensures
            r.releases == self.releases,
            r@ == (ReleaseOperationView { body: Some(body@), ..self@ }),
    {
        ReleaseCreateOperation { body: Some(lit(body)), ..self }
    }

    /// The draft to create: the repository, then the tag, are required.
    pub fn create(self) -> (r: CognitionResult<(B, ReleaseDraft)>)
        ensures
            match (self@.repo, self@.tag) {
                (Some(repo), Some(tag)) => r matches Ok((b, d)) && b == self.releases && d@
                    == (ReleaseDraftView { repo, tag, name: self@.name, body: self@.body }),
                (None, _) => r matches Err(e) && e@ == ErrorView::InvalidInput(
                    "repository is required"@,
                ),
                (Some(_), None) => r matches Err(e) && e@ == ErrorView::InvalidInput(
                    "release tag is required"@,
                ),
            },
    {
        let repo = match self.repo {
            Some(repo) => repo,
            None => {
                return Err(invalid_input("repository is required"));
            },
        };
        let tag = match self.tag {
            Some(tag) => tag,
            None => {
                return Err(invalid_input("release tag is required"));
            },
        };
        let draft = release().draft().repo(repo).tag(tag.as_str());
        Ok((self.releases, draft_with(draft, self.name, self.body)))
    }
}

/// A release to update over the backend `B`.
pub struct ReleaseUpdateOperation<B> {
    pub releases: B,
    pub repo: Option<Repo>,
    pub id: Option<String>,
    pub name: Option<String>,
    pub body: Option<String>,
}

impl<B> View for ReleaseUpdateOperation<B> {
    type V = ReleaseOperationView;

    closed spec fn view(&self) -> ReleaseOperationView {
        ReleaseOperationView {
            repo: opt_repo_view(self.repo),
            id: opt_str_view(self.id),
            tag: None,
            name: opt_str_view(self.name),
            body: opt_str_view(self.body),
        }
    }
}

impl<B> ReleaseUpdateOperation<B> {
    pub fn make(releases: B) -> (r: Self)
        ensures
            r.releases == releases,
            r@ == (ReleaseOperationView { repo: None, id: None, tag: None, name: None, body: None }),
    {
        ReleaseUpdateOperation { releases, repo: None, id: None, name: None, body: None }
    }

    pub fn location(self, repo: Repo) -> (r: Self)
        ensures
            r.releases == self.releases,
            r@ == (ReleaseOperationView { repo: Some(repo@), ..self@ }),
    {
        ReleaseUpdateOperation { repo: Some(repo), ..self }
    }

    pub fn id(self, id: &str) -> (r: Self)
        ensures
            r.releases == self.releases,
            r@ == (ReleaseOperationView { id: Some(id@), ..self@ }),
    {
        ReleaseUpdateOperation { id: Some(lit(id)), ..self }
    }

    pub fn name(self, name: &str) -> (r: Self)
        ensures
            r.releases == self.releases,
            r@ == (ReleaseOperationView { name: Some(name@), ..self@ }),
    {
        ReleaseUpdateOperation { name: Some(lit(name)), ..self }
    }

    pub fn body(self, body: &str) -> (r: Self)
        ensures
            r.releases == self.releases,
            r@ == (ReleaseOperationView { body: Some(body@), ..self@ }),
    {
        ReleaseUpdateOperation { body: Some(lit(body)), ..self }
    }

    /// The patch to apply: the repository, then the identifier, are required.
    pub fn update(self) -> (r: CognitionResult<(B, ReleasePatch)>)
        ensures
            match (self@.repo, self@.id) {
                (Some(repo), Some(id)) => r matches Ok((b, p)) && b == self.releases && p@
                    == (ReleasePatchView {
                    release: ReleaseView { repo, id },
                    name: self@.name,
                    body: self@.body,
                }),
                (None, _) => r matches Err(e) && e@ == ErrorView::InvalidInput(
                    "repository is required"@,
                ),
                (Some(_), None) => r matches Err(e) && e@ == ErrorView::InvalidInput(
                    "release id is required"@,
                ),
            },
    {
        let repo = match self.repo {
            Some(repo) => repo,
            None => {
                return Err(invalid_input("repository is required"));
            },
        };
        let id = match self.id {
            Some(id) => id,
            None => {
                return Err(invalid_input("release id is required"));
            },
        };
        let x = Release::make(repo, ReleaseId::make(id.as_str()));
        Ok((self.releases, patch_with(&x, self.name, self.body)))
    }
}

/// A release to delete over the backend `B`.
pub struct ReleaseDeleteOperation<B> {
    pub releases: B,
    pub repo: Option<Repo>,
    pub id: Option<String>,
}

impl<B> View for ReleaseDeleteOperation<B> {
    type V = ReleaseOperationView;

    closed spec fn view(&self) -> ReleaseOperationView {
        ReleaseOperationView {
            repo: opt_repo_view(self.repo),
            id: opt_str_view(self.id),
            tag: None,
            name: None,
            body: None,
        }
    }
}

impl<B> ReleaseDeleteOperation<B> {
    pub fn make(releases: B) -> (r: Self)
        ensures
            r.releases == releases,
            r@ == (ReleaseOperationView { repo: None, id: None, tag: None, name: None, body: None }),
    {
        ReleaseDeleteOperation { releases, repo: None, id: None }
    }

    pub fn location(self, repo: Repo) -> (r: Self)
        ensures
            r.releases == self.releases,
            r@ == (ReleaseOperationView { repo: Some(repo@), ..self@ }),
    {
        ReleaseDeleteOperation { repo: Some(repo), ..self }
    }

    pub fn id(self, id: &str) -> (r: Self)
        ensures
            r.releases == self.releases,
            r@ == (ReleaseOperationView { id: Some(id@), ..self@ }),
    {
        ReleaseDeleteOperation { id: Some(lit(id)), ..self }
    }

    /// The release to delete: the repository, then the identifier, are required.
    pub fn delete(self) -> (r: CognitionResult<(B, Release)>)
        ensures
            match (self@.repo, self@.id) {
                (Some(repo), Some(id)) => r matches Ok((b, x)) && b == self.releases && x@
                    == (ReleaseView { repo, id }),
                (None, _) => r matches Err(e) && e@ == ErrorView::InvalidInput(
                    "repository is required"@,
                ),
                (Some(_), None) => r matches Err(e) && e@ == ErrorView::InvalidInput(
                    "release id is required"@,
                ),
            },
    {
        let repo = match self.repo {
            Some(repo) => repo,
            None => {
                return Err(invalid_input("repository is required"));
            },
        };
        let id = match self.id {
            Some(id) => id,
            None => {
                return Err(invalid_input("release id is required"));
            },
        };
        Ok((self.releases, Release::make(repo, ReleaseId::make(id.as_str()))))
    }
}

} // verus!
