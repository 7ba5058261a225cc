//! Managed releases: named piece by piece, then asked for URLs and requests.
use vstd::prelude::*;

use super::{ManagedReleaseProvider, VcsManager};
use crate::http::{Request, RequestUrl};
use crate::pagination::{clone_page_request, page_request_view, PageRequest, PageRequestBuilder, PageRequestView};
use crate::releases::drafts::{MissingReleaseTag, ProvidedReleaseTag, ReleaseDraftBuilder};
use crate::releases::{ReleaseDraft, ReleaseDraftView};
use crate::releases::queries::{ReleaseListQuery, ReleaseListQueryView, ReleaseQueryBuilder};
use crate::releases::{
    release, MissingReleaseId, MissingReleaseRepo, ProvidedReleaseId, ProvidedReleaseRepo, Release,
    ReleaseBuilder, ReleaseView,
};
use crate::repos::resources::opt_str_view;
use crate::repos::{Repo, RepoView};

verus! {

/// A release named piece by piece, with its manager.
pub struct ManagedReleaseBuilder<Driver, RepoState, ReleaseIdState> {
    pub manager: VcsManager<Driver>,
    pub release: ReleaseBuilder<RepoState, ReleaseIdState>,
}

impl<Driver: ManagedReleaseProvider> ManagedReleaseBuilder<Driver, MissingReleaseRepo, MissingReleaseId> {
    /// The collection of releases, with a copy of the manager.
    pub fn collection(&self) -> (r: ManagedReleaseCollection<Driver>)
        ensures
            cloned(self.manager.driver, r.manager.driver),
    {
        ManagedReleaseCollection { manager: self.manager.clone() }
    }

    pub fn query(&self) -> (r: ReleaseQueryBuilder) {
        ReleaseQueryBuilder
    }

    /// A release draft with nothing given yet, with a copy of the manager.
    pub fn draft(&self) -> (r: ManagedReleaseDraftBuilder<Driver, MissingReleaseRepo, MissingReleaseTag>)
        ensures
            cloned(self.manager.driver, r.manager.driver),
            r.draft.name is None,
            r.draft.body is None,
    {
        ManagedReleaseDraftBuilder { manager: self.manager.clone(), draft: release().draft() }
    }
}

impl<Driver: ManagedReleaseProvider, I> ManagedReleaseBuilder<Driver, MissingReleaseRepo, I> {
    pub fn repo(self, repo: Repo) -> (r: ManagedReleaseBuilder<Driver, ProvidedReleaseRepo, I>)
        ensures
            r.manager == self.manager,
            r.release.repo.repo@ == repo@,
            r.release.id == self.release.id,
    {
        ManagedReleaseBuilder { manager: self.manager, release: self.release.repo(repo) }
    }
}

impl<Driver: ManagedReleaseProvider, R> ManagedReleaseBuilder<Driver, R, MissingReleaseId> {
    pub fn id(self, id: &str) -> (r: ManagedReleaseBuilder<Driver, R, ProvidedReleaseId>)
        ensures
            r.manager == self.manager,
            r.release.id.id@ == id@,
            r.release.repo == self.release.repo,
    {
        ManagedReleaseBuilder { manager: self.manager, release: self.release.id(id) }
    }
}

impl<Driver: ManagedReleaseProvider> ManagedReleaseBuilder<Driver, ProvidedReleaseRepo, ProvidedReleaseId> {
    pub fn build(self) -> (r: ManagedRelease<Driver>)
        ensures
            r.manager == self.manager,
            r.release@ == (ReleaseView { repo: self.release.repo.repo@, id: self.release.id.id@ }),
    {
        self.get()
    }

    pub fn get(self) -> (r: ManagedRelease<Driver>)
        ensures
            r.manager == self.manager,
            r.release@ == (ReleaseView { repo: self.release.repo.repo@, id: self.release.id.id@ }),
    {
        ManagedRelease { manager: self.manager, release: self.release.build() }
    }
}

/// A release draft with its manager.
pub struct ManagedReleaseDraftBuilder<Driver, RepoState, TagState> {
    pub manager: VcsManager<Driver>,
    pub draft: ReleaseDraftBuilder<RepoState, TagState>,
}

impl<Driver: ManagedReleaseProvider, T> ManagedReleaseDraftBuilder<Driver, MissingReleaseRepo, T> {
    pub fn repo(self, repo: Repo) -> (r: ManagedReleaseDraftBuilder<Driver, ProvidedReleaseRepo, T>)
        ensures
            r.manager == self.manager,
            r.draft.repo.repo@ == repo@,
            r.draft.tag == self.draft.tag,
            r.draft.name == self.draft.name,
            r.draft.body == self.draft.body,
    {
        ManagedReleaseDraftBuilder { manager: self.manager, draft: self.draft.repo(repo) }
    }
}

impl<Driver: ManagedReleaseProvider, R> ManagedReleaseDraftBuilder<Driver, R, MissingReleaseTag> {
    pub fn tag(self, tag: &str) -> (r: ManagedReleaseDraftBuilder<Driver, R, ProvidedReleaseTag>)
        ensures
            r.manager == self.manager,
            r.draft.tag.tag@ == tag@,
            r.draft.repo == self.draft.repo,
            r.draft.name == self.draft.name,
            r.draft.body == self.draft.body,
    {
        ManagedReleaseDraftBuilder { manager: self.manager, draft: self.draft.tag(tag) }
    }
}

impl<Driver: ManagedReleaseProvider, R, T> ManagedReleaseDraftBuilder<Driver, R, T> {
    pub fn name(self, name: &str) -> (r: Self)
        ensures
            r.manager == self.manager,
            opt_str_view(r.draft.name) == Some(name@),
            r.draft.repo == self.draft.repo,
            r.draft.tag == self.draft.tag,
            r.draft.body == self.draft.body,
    {
        ManagedReleaseDraftBuilder { manager: self.manager, draft: self.draft.name(name) }
    }

    pub fn body(self, body: &str) -> (r: Self)
        ensures
            r.manager == self.manager,
            opt_str_view(r.draft.body) == Some(body@),
            r.draft.repo == self.draft.repo,
            r.draft.tag == self.draft.tag,
            r.draft.name == self.draft.name,
    {
        ManagedReleaseDraftBuilder { manager: self.manager, draft: self.draft.body(body) }
    }
}

impl<Driver: ManagedReleaseProvider> ManagedReleaseDraftBuilder<Driver, ProvidedReleaseRepo, ProvidedReleaseTag> {
    /// The driver's request that creates the drafted release.
    pub fn create(self) -> (r: Request)
        ensures
            exists|d: ReleaseDraft|
                d@ == (ReleaseDraftView {
                    repo: self.draft.repo.repo@,
                    tag: self.draft.tag.tag@,
                    name: opt_str_view(self.draft.name),
                    body: opt_str_view(self.draft.body),
                }) && call_ensures(Driver::release_create_request, (&self.manager.driver, &d), r),
    {
        self.manager.driver.release_create_request(&self.draft.get())
    }
}

/// A release with its manager.
pub struct ManagedRelease<Driver> {
    pub manager: VcsManager<Driver>,
    pub release: Release,
}

impl<Driver: ManagedReleaseProvider> ManagedRelease<Driver> {
    /// The driver's URL of the release.
    pub fn url(&self) -> (r: RequestUrl)
        ensures
            call_ensures(Driver::release_url, (&self.manager.driver, &self.release), r),
    {
        self.manager.driver.release_url(&self.release)
    }

    pub fn release(&self) -> (r: &Release)
        ensures
            r@ == self.release@,
    {
        &self.release
    }

    pub fn repo(&self) -> (r: &Repo)
        ensures
            r@ == self.release@.repo,
    {
        self.release.repo()
    }

    /// The driver's request that deletes the release.
    pub fn delete(&self) -> (r: Request)
        ensures
            call_ensures(Driver::release_delete_request, (&self.manager.driver, &self.release), r),
    {
        self.manager.driver.release_delete_request(&self.release)
    }
}

/// The collection of a provider's releases.
pub struct ManagedReleaseCollection<Driver> {
    pub manager: VcsManager<Driver>,
}

impl<Driver: ManagedReleaseProvider> ManagedReleaseCollection<Driver> {
    /// The driver's URL of a listing.
    pub fn list(&self, query: &ReleaseListQuery) -> (r: RequestUrl)
        ensures
            call_ensures(Driver::release_list_url, (&self.manager.driver, query), r),
    {
        self.manager.driver.release_list_url(query)
    }
}

/// The releases of one repository, on a page or not.
pub struct ManagedRepoReleases<Driver> {
    pub manager: VcsManager<Driver>,
    pub repo: Repo,
    pub page: Option<PageRequest>,
}

impl<Driver: ManagedReleaseProvider> ManagedRepoReleases<Driver> {
    /// The listing query of these releases.
    pub fn query(&self) -> (r: ReleaseListQuery)
        ensures
            r@ == (ReleaseListQueryView { repo: self.repo@, page: page_request_view(self.page) }),
    {
        ReleaseQueryBuilder.list(self.repo.clone(), clone_page_request(&self.page))
    }

    /// The driver's URL of `query()`.
    pub fn url(&self) -> (r: RequestUrl)
        ensures
            exists|q: ReleaseListQuery|
                q@ == (ReleaseListQueryView { repo: self.repo@, page: page_request_view(self.page) })
                && call_ensures(Driver::release_list_url, (&self.manager.driver, &q), r),
    {
        let query = self.query();
        self.manager.driver.release_list_url(&query)
    }

    /// Starts giving a page, with no limit or cursor yet.
    pub fn pagination(self) -> (r: ManagedRepoReleasesPagination<Driver>)
        ensures
            r.manager == self.manager,
            r.repo == self.repo,
            r.page@ == (PageRequestView { limit: None, cursor: None }),
    {
        ManagedRepoReleasesPagination {
            manager: self.manager,
            repo: self.repo,
            page: PageRequestBuilder::default(),
        }
    }

    pub fn repo(&self) -> (r: &Repo)
        ensures
            r@ == self.repo@,
    {
        &self.repo
    }
}

/// A page of a repository's releases being given.
pub struct ManagedRepoReleasesPagination<Driver> {
    pub manager: VcsManager<Driver>,
    pub repo: Repo,
    pub page: PageRequestBuilder,
}

impl<Driver: ManagedReleaseProvider> ManagedRepoReleasesPagination<Driver> {
    pub fn limit(self, limit: u16) -> (r: Self)
        ensures
            r.manager == self.manager,
            r.repo == self.repo,
            r.page@ == (PageRequestView { limit: Some(limit), ..self.page@ }),
    {
        ManagedRepoReleasesPagination { page: self.page.limit(limit), ..self }
    }

    pub fn cursor(self, cursor: &str) -> (r: Self)
        ensures
            r.manager == self.manager,
            r.repo == self.repo,
            r.page@ == (PageRequestView { cursor: Some(cursor@), ..self.page@ }),
    {
        ManagedRepoReleasesPagination { page: self.page.cursor(cursor), ..self }
    }

    pub fn build(self) -> (r: ManagedRepoReleases<Driver>)
        ensures
            r.manager == self.manager,
            r.repo == self.repo,
            page_request_view(r.page) == Some(self.page@),
    {
        self.list()
    }

    pub fn get(self) -> (r: ManagedRepoReleases<Driver>)
        ensures
            r.manager == self.manager,
            r.repo == self.repo,
            page_request_view(r.page) == Some(self.page@),
    {
        self.list()
    }

    /// The releases of the repository on the page given.
    pub fn list(self) -> (r: ManagedRepoReleases<Driver>)
        ensures
            r.manager == self.manager,
            r.repo == self.repo,
            page_request_view(r.page) == Some(self.page@),
    {
        ManagedRepoReleases { manager: self.manager, repo: self.repo, page: Some(self.page.build()) }
    }

    /// The driver's URL of the listing on the page given.
    pub fn url(self) -> (r: RequestUrl)
        ensures
            exists|q: ReleaseListQuery|
                q@ == (ReleaseListQueryView { repo: self.repo@, page: Some(self.page@) })
                && call_ensures(Driver::release_list_url, (&self.manager.driver, &q), r),
    {
        self.list().url()
    }
}

} // verus!
