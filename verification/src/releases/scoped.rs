//! Operations on the releases of one repository: what each one asks the backend
//! for, or why it cannot.
use vstd::prelude::*;

use super::drafts::ReleaseDraftBuilder;
use super::queries::{ReleaseListQuery, ReleaseListQueryView, ReleaseQueryBuilder};
use super::{
    opt_str, release, Release, ReleaseDraft, ReleaseDraftView, ReleaseId, ReleasePatch,
    ReleasePatchView, ReleaseView,
};
use crate::error::{invalid_input, CognitionResult, ErrorView};
use crate::repos::resources::opt_str_view;
use crate::repos::{Repo, RepoView};
use crate::text::lit;

verus! {

/// What a scoped release operation was given.
pub struct ScopedReleaseView {
    pub repo: RepoView,
    pub id: Option<Seq<char>>,
    pub tag: Option<Seq<char>>,
    pub name: Option<Seq<char>>,
    pub body: Option<Seq<char>>,
}

/// An operation on the releases of one repository, over the backend `B`.
pub struct ScopedReleaseOperation<B> {
    pub releases: B,
    pub repo: Repo,
    pub id: Option<String>,
    pub tag: Option<String>,
    pub name: Option<String>,
    pub body: Option<String>,
}

impl<B> View for ScopedReleaseOperation<B> {
    type V = ScopedReleaseView;

    closed spec fn view(&self) -> ScopedReleaseView {
        ScopedReleaseView {
            repo: self.repo@,
            id: opt_str_view(self.id),
            tag: opt_str_view(self.tag),
            name: opt_str_view(self.name),
            body: opt_str_view(self.body),
        }
    }
}

/// The draft with a name and a body when given.
pub fn draft_with(
    draft: ReleaseDraftBuilder<super::ProvidedReleaseRepo, super::ProvidedReleaseTag>,
    name: Option<String>,
    body: Option<String>,
) -> (r: ReleaseDraft)
    ensures
        r@ == (ReleaseDraftView {
            repo: draft.repo.repo@,
            tag: draft.tag.tag@,
            name: match name {
                Some(n) => Some(n@),
                None => opt_str_view(draft.name),
            },
            body: match body {
                Some(b) => Some(b@),
                None => opt_str_view(draft.body),
            },
        }),
{
    let mut d = draft;
    if let Some(n) = name {
        d = d.name(n.as_str());
    }
    if let Some(b) = body {
        d = d.body(b.as_str());
    }
    d.get()
}

/// The patch of `release` with a name and a body when given.
pub fn patch_with(release: &Release, name: Option<String>, body: Option<String>) -> (r: ReleasePatch)
    ensures
        r@ == (ReleasePatchView {
            release: release@,
            name: match name {
                Some(n) => Some(n@),
                None => None,
            },
            body: match body {
                Some(b) => Some(b@),
                None => None,
            },
        }),
{
    let mut p = release.patch();
    if let Some(n) = name {
        p = p.name(n.as_str());
    }
    if let Some(b) = body {
        p = p.body(b.as_str());
    }
    p.get()
}

impl<B> ScopedReleaseOperation<B> {
    pub fn make(releases: B, repo: Repo) -> (r: Self)
        ensures
            r.releases == releases,
            r@ == (ScopedReleaseView { repo: repo@, id: None, tag: None, name: None, body: None }),
    {
        ScopedReleaseOperation { releases, repo, id: None, tag: None, name: None, body: None }
    }

    pub fn id(self, id: &str) -> (r: Self)
        ensures
            r.releases == self.releases,
            r@ == (ScopedReleaseView { id: Some(id@), ..self@ }),
    {
        ScopedReleaseOperation { id: Some(lit(id)), ..self }
    }

    pub fn tag(self, tag: &str) -> (r: Self)
        ensures
            r.releases == self.releases,
            r@ == (ScopedReleaseView { tag: Some(tag@), ..self@ }),
    {
        ScopedReleaseOperation { tag: Some(lit(tag)), ..self }
    }

    pub fn name(self, name: &str) -> (r: Self)
        ensures
            r.releases == self.releases,
            r@ == (ScopedReleaseView { name: Some(name@), ..self@ }),
    {
        ScopedReleaseOperation { name: Some(lit(name)), ..self }
    }

    pub fn body(self, body: &str) -> (r: Self)
        ensures
            r.releases == self.releases,
            r@ == (ScopedReleaseView { body: Some(body@), ..self@ }),
    {
        ScopedReleaseOperation { body: Some(lit(body)), ..self }
    }

    /// The release to get: the identifier is required.
    pub fn get(self) -> (r: CognitionResult<(B, Release)>)
        ensures
            match self@.id {
                Some(id) => r matches Ok((b, x)) && b == self.releases && x@ == (ReleaseView {
                    repo: self@.repo,
                    id,
                }),
                None => r matches Err(e) && e@ == ErrorView::InvalidInput("release id is required"@),
            },
    {
        match self.id {
            Some(id) => Ok((self.releases, Release::make(self.repo, ReleaseId::make(id.as_str())))),
            None => Err(invalid_input("release id is required")),
        }
    }

    /// The listing of the releases of the repository.
    pub fn list(self) -> (r: (B, ReleaseListQuery))
        ensures
            r.0 == self.releases,
            r.1@ == (ReleaseListQueryView { repo: self@.repo, page: None }),
    {
        (self.releases, ReleaseQueryBuilder.location(self.repo).list())
    }

    /// The release to create: the tag is required.
    pub fn create(self) -> (r: CognitionResult<(B, ReleaseDraft)>)
        ensures
            match self@.tag {
                Some(tag) => r matches Ok((b, d)) && b == self.releases && d@ == (ReleaseDraftView {
                    repo: self@.repo,
                    tag,
                    name: self@.name,
                    body: self@.body,
                }),
                None => r matches Err(e) && e@ == ErrorView::InvalidInput(
                    "release tag is required"@,
                ),
            },
    {
        match self.tag {
            Some(tag) => {
                let draft = release().draft().repo(self.repo).tag(tag.as_str());
                Ok((self.releases, draft_with(draft, self.name, self.body)))
            },
            None => Err(invalid_input("release tag is required")),
        }
    }

    /// The patch to apply: the identifier is required.
    pub fn update(self) -> (r: CognitionResult<(B, ReleasePatch)>)
        ensures
            match self@.id {
                Some(id) => r matches Ok((b, p)) && b == self.releases && p@ == (ReleasePatchView {
                    release: ReleaseView { repo: self@.repo, id },
                    name: self@.name,
                    body: self@.body,
                }),
                None => r matches Err(e) && e@ == ErrorView::InvalidInput("release id is required"@),
            },
    {
        match self.id {
            Some(id) => {
                let x = Release::make(self.repo, ReleaseId::make(id.as_str()));
                Ok((self.releases, patch_with(&x, self.name, self.body)))
            },
            None => Err(invalid_input("release id is required")),
        }
    }

    /// The release to delete: the identifier is required.
    pub fn delete(self) -> (r: CognitionResult<(B, Release)>)
        ensures
            match self@.id {
                Some(id) => r matches Ok((b, x)) && b == self.releases && x@ == (ReleaseView {
                    repo: self@.repo,
                    id,
                }),
                None => r matches Err(e) && e@ == ErrorView::InvalidInput("release id is required"@),
            },
    {
        self.get()
    }
}

} // verus!
