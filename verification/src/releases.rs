//! Releases of a repository: their identity, drafts, patches and list queries.
use vstd::prelude::*;

use crate::pagination::{clone_page_request, page_request_view, PageRequest, PageRequestView};
use crate::repos::resources::{clone_opt_string, opt_str_view};
use crate::repos::{Repo, RepoView};
use crate::text::lit;

pub mod drafts;
pub mod list;
pub mod operations;
pub mod patches;
pub mod queries;
pub mod scoped;
pub mod transport;

pub use drafts::{MissingReleaseTag, ProvidedReleaseTag, ReleaseDraftBuilder};
pub use patches::ReleasePatchBuilder;
pub use queries::{ReleaseListQuery, ReleaseListQueryBuilder, ReleaseListQueryView, ReleaseQueryBuilder};

verus! {

/// The identifier of a release.
#[derive(Debug, PartialEq, Eq)]
pub struct ReleaseId(String);

impl View for ReleaseId {
    type V = Seq<char>;

    closed spec fn view(&self) -> Seq<char> {
        self.0@
    }
}

impl Clone for ReleaseId {
    fn clone(&self) -> (r: Self)
        ensures
            r@ == self@,
    {
        ReleaseId(self.0.clone())
    }
}

impl ReleaseId {
    pub fn make(value: &str) -> (r: Self)
        ensures
            r@ == value@,
    {
        ReleaseId(lit(value))
    }

    pub fn as_str(&self) -> (r: &str)
        ensures
            r@ == self@,
    {
        self.0.as_str()
    }
}

/// A release of a repository.
#[derive(Debug, PartialEq, Eq)]
pub struct Release {
    repo: Repo,
    id: ReleaseId,
}

pub struct ReleaseView {
    pub repo: RepoView,
    pub id: Seq<char>,
}

impl View for Release {
    type V = ReleaseView;

    closed spec fn view(&self) -> ReleaseView {
        ReleaseView { repo: self.repo@, id: self.id@ }
    }
}

impl Clone for Release {
    fn clone(&self) -> (r: Self)
        ensures
            r@ == self@,
    {
        Release { repo: self.repo.clone(), id: self.id.clone() }
    }
}

impl Release {
    /// A builder with neither the repository nor the identifier given.
    pub fn builder() -> (r: ReleaseBuilder<MissingReleaseRepo, MissingReleaseId>) {
        ReleaseBuilder { repo: MissingReleaseRepo, id: MissingReleaseId }
    }

    pub fn make(repo: Repo, id: ReleaseId) -> (r: Self)
        ensures
            r@ == (ReleaseView { repo: repo@, id: id@ }),
    {
        Release { repo, id }
    }

    pub fn repo(&self) -> (r: &Repo)
        ensures
            r@ == self@.repo,
    {
        &self.repo
    }

    pub fn id(&self) -> (r: &ReleaseId)
        ensures
            r@ == self@.id,
    {
        &self.id
    }

    /// A patch of this release that changes nothing yet.
    pub fn patch(&self) -> (r: ReleasePatchBuilder)
        ensures
            r@ == (ReleasePatchView { release: self@, name: None, body: None }),
    {
        ReleasePatchBuilder::make(self.clone())
    }
}

/// A release to create: its repository, tag, and optional name and body.
#[derive(Debug, PartialEq, Eq)]
pub struct ReleaseDraft {
    repo: Repo,
    tag: String,
    name: Option<String>,
    body: Option<String>,
}

pub struct ReleaseDraftView {
    pub repo: RepoView,
    pub tag: Seq<char>,
    pub name: Option<Seq<char>>,
    pub body: Option<Seq<char>>,
}

impl View for ReleaseDraft {
    type V = ReleaseDraftView;

    closed spec fn view(&self) -> ReleaseDraftView {
        ReleaseDraftView {
            repo: self.repo@,
            tag: self.tag@,
            name: opt_str_view(self.name),
            body: opt_str_view(self.body),
        }
    }
}

impl Clone for ReleaseDraft {
    fn clone(&self) -> (r: Self)
        ensures
            r@ == self@,
    {
        ReleaseDraft {
            repo: self.repo.clone(),
            tag: self.tag.clone(),
            name: clone_opt_string(&self.name),
            body: clone_opt_string(&self.body),
        }
    }
}

pub fn opt_str<'a>(o: &'a Option<String>) -> (r: Option<&'a str>)
    ensures
        match r {
            Some(s) => opt_str_view(*o) == Some(s@),
            None => o is None,
        },
{
    match o {
        Some(s) => Some(s.as_str()),
        None => None,
    }
}

impl ReleaseDraft {
    pub fn make(repo: Repo, tag: String, name: Option<String>, body: Option<String>) -> (r: Self)
        ensures
            r@ == (ReleaseDraftView {
                repo: repo@,
                tag: tag@,
                name: opt_str_view(name),
                body: opt_str_view(body),
            }),
    {
        ReleaseDraft { repo, tag, name, body }
    }

    pub fn repo(&self) -> (r: &Repo)
        ensures
            r@ == self@.repo,
    {
        &self.repo
    }

    pub fn tag(&self) -> (r: &str)
        ensures
            r@ == self@.tag,
    {
        self.tag.as_str()
    }

    pub fn name(&self) -> (r: Option<&str>)
        ensures
            match r {
                Some(s) => self@.name == Some(s@),
                None => self@.name is None,
            },
    {
        opt_str(&self.name)
    }

    pub fn body(&self) -> (r: Option<&str>)
        ensures
            match r {
                Some(s) => self@.body == Some(s@),
                None => self@.body is None,
            },
    {
        opt_str(&self.body)
    }
}

/// Changes to a release: a new name, a new body, or both.
#[derive(Debug, PartialEq, Eq)]
pub struct ReleasePatch {
    release: Release,
    name: Option<String>,
    body: Option<String>,
}

pub struct ReleasePatchView {
    pub release: ReleaseView,
    pub name: Option<Seq<char>>,
    pub body: Option<Seq<char>>,
}

impl View for ReleasePatch {
    type V = ReleasePatchView;

    closed spec fn view(&self) -> ReleasePatchView {
        ReleasePatchView {
            release: self.release@,
            name: opt_str_view(self.name),
            body: opt_str_view(self.body),
        }
    }
}

impl Clone for ReleasePatch {
    fn clone(&self) -> (r: Self)
        ensures
            r@ == self@,
    {
        ReleasePatch {
            release: self.release.clone(),
            name: clone_opt_string(&self.name),
            body: clone_opt_string(&self.body),
        }
    }
}

impl ReleasePatch {
    pub fn make(release: Release, name: Option<String>, body: Option<String>) -> (r: Self)
        ensures
            r@ == (ReleasePatchView {
                release: release@,
                name: opt_str_view(name),
                body: opt_str_view(body),
            }),
    {
        ReleasePatch { release, name, body }
    }

    pub fn release(&self) -> (r: &Release)
        ensures
            r@ == self@.release,
    {
        &self.release
    }

    pub fn name(&self) -> (r: Option<&str>)
        ensures
            match r {
                Some(s) => self@.name == Some(s@),
                None => self@.name is None,
            },
    {
        opt_str(&self.name)
    }

    pub fn body(&self) -> (r: Option<&str>)
        ensures
            match r {
                Some(s) => self@.body == Some(s@),
                None => self@.body is None,
            },
    {
        opt_str(&self.body)
    }
}

/// The repository of a release is still to be given.
#[derive(Clone, Debug, PartialEq, Eq)]
pub struct MissingReleaseRepo;

/// The repository of a release was given.
#[derive(Debug, PartialEq, Eq)]
pub struct ProvidedReleaseRepo {
    pub repo: Repo,
}

/// The identifier of a release is still to be given.
#[derive(Clone, Debug, PartialEq, Eq)]
pub struct MissingReleaseId;

/// The identifier of a release was given.
#[derive(Debug, PartialEq, Eq)]
pub struct ProvidedReleaseId {
    pub id: ReleaseId,
}

/// A release named piece by piece; the type records what was given.
#[derive(Debug, PartialEq, Eq)]
pub struct ReleaseBuilder<RepoState, ReleaseIdState> {
    pub repo: RepoState,
    pub id: ReleaseIdState,
}

impl<ReleaseIdState> ReleaseBuilder<MissingReleaseRepo, ReleaseIdState> {
    pub fn repo(self, repo: Repo) -> (r: ReleaseBuilder<ProvidedReleaseRepo, ReleaseIdState>)
        ensures
            r.repo.repo@ == repo@,
            r.id == self.id,
    {
        ReleaseBuilder { repo: ProvidedReleaseRepo { repo }, id: self.id }
    }
}

impl<RepoState> ReleaseBuilder<RepoState, MissingReleaseId> {
    pub fn id(self, id: &str) -> (r: ReleaseBuilder<RepoState, ProvidedReleaseId>)
        ensures
            r.id.id@ == id@,
            r.repo == self.repo,
    {
        ReleaseBuilder { repo: self.repo, id: ProvidedReleaseId { id: ReleaseId::make(id) } }
    }
}

impl ReleaseBuilder<ProvidedReleaseRepo, ProvidedReleaseId> {
    pub fn build(self) -> (r: Release)
        ensures
            r@ == (ReleaseView { repo: self.repo.repo@, id: self.id.id@ }),
    {
        self.get()
    }

    pub fn get(self) -> (r: Release)
        ensures
            r@ == (ReleaseView { repo: self.repo.repo@, id: self.id.id@ }),
    {
        Release { repo: self.repo.repo, id: self.id.id }
    }
}

impl ReleaseBuilder<MissingReleaseRepo, MissingReleaseId> {
    pub fn query(self) -> (r: ReleaseQueryBuilder) {
        ReleaseQueryBuilder
    }

    /// A draft with neither the repository nor the tag given.
    pub fn draft(self) -> (r: ReleaseDraftBuilder<MissingReleaseRepo, MissingReleaseTag>)
        ensures
            r.name is None,
            r.body is None,
    {
        ReleaseDraftBuilder { repo: MissingReleaseRepo, tag: MissingReleaseTag, name: None, body: None }
    }
}

/// A release builder with nothing given yet.
pub fn release() -> (r: ReleaseBuilder<MissingReleaseRepo, MissingReleaseId>) {
    Release::builder()
}

} // verus!
