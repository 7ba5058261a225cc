//! Listing releases: the repository is required, the page optional.
use vstd::prelude::*;

use super::operations::opt_repo_view;
use super::queries::{ReleaseListQuery, ReleaseListQueryView, ReleaseQueryBuilder};
use crate::error::{invalid_input, CognitionResult, ErrorView};
use crate::pagination::{page_request_view, PageRequest, PageRequestBuilder, PageRequestView};
use crate::repos::{Repo, RepoView};

verus! {

/// What a release listing was given.
pub struct ReleaseListOperationView {
    pub repo: Option<RepoView>,
    pub page: Option<PageRequestView>,
}

/// A listing of releases over the backend `B`.
pub struct ReleaseListOperation<B> {
    pub releases: B,
    pub repo: Option<Repo>,
    pub page: Option<PageRequest>,
}

impl<B> View for ReleaseListOperation<B> {
    type V = ReleaseListOperationView;

    closed spec fn view(&self) -> ReleaseListOperationView {
        ReleaseListOperationView { repo: opt_repo_view(self.repo), page: page_request_view(self.page) }
    }
}

impl<B> ReleaseListOperation<B> {
    pub fn make(releases: B) -> (r: Self)
        ensures
            r.releases == releases,
            r@ == (ReleaseListOperationView { repo: None, page: None }),
    {
        ReleaseListOperation { releases, repo: None, page: None }
    }

    pub fn location(self, repo: Repo) -> (r: Self)
        ensures
            r.releases == self.releases,
            r@ == (ReleaseListOperationView { repo: Some(repo@), ..self@ }),
    {
        ReleaseListOperation { repo: Some(repo), ..self }
    }

    /// Starts giving a page, with no limit or cursor yet.
    pub fn pagination(self) -> (r: ReleaseListPaginationOperation<B>)
        ensures
            r.releases == self.releases,
            r@ == (ReleaseListPaginationView {
                repo: self@.repo,
                page: PageRequestView { limit: None, cursor: None },
            }),
    {
        ReleaseListPaginationOperation {
            releases: self.releases,
            repo: self.repo,
            page: PageRequestBuilder::default(),
        }
    }

    /// The query to send: the repository is required.
    pub fn list(self) -> (r: CognitionResult<(B, ReleaseListQuery)>)
        ensures
            match self@.repo {
                Some(repo) => r matches Ok((b, q)) && b == self.releases && q@
                    == (ReleaseListQueryView { repo, page: self@.page }),
                None => r matches Err(e) && e@ == ErrorView::InvalidInput(
                    "repository is required"@,
                ),
            },
    {
        match self.repo {
            Some(repo) => Ok(
                (
                    self.releases,
                    ReleaseQueryBuilder.location(repo).optional_pagination(self.page).list(),
                ),
            ),
            None => Err(invalid_input("repository is required")),
        }
    }
}

/// What a paginated release listing was given.
pub struct ReleaseListPaginationView {
    pub repo: Option<RepoView>,
    pub page: PageRequestView,
}

/// A page of a release listing being given.
pub struct ReleaseListPaginationOperation<B> {
    pub releases: B,
    pub repo: Option<Repo>,
    pub page: PageRequestBuilder,
}

impl<B> View for ReleaseListPaginationOperation<B> {
    type V = ReleaseListPaginationView;

    closed spec fn view(&self) -> ReleaseListPaginationView {
        ReleaseListPaginationView { repo: opt_repo_view(self.repo), page: self.page@ }
    }
}

impl<B> ReleaseListPaginationOperation<B> {
    pub fn limit(self, limit: u16) -> (r: Self)
        ensures
            r.releases == self.releases,
            r@ == (ReleaseListPaginationView {
                page: PageRequestView { limit: Some(limit), ..self@.page },
                ..self@
            }),
    {
        ReleaseListPaginationOperation { page: self.page.limit(limit), ..self }
    }

    pub fn cursor(self, cursor: &str) -> (r: Self)
        ensures
            r.releases == self.releases,
            r@ == (ReleaseListPaginationView {
                page: PageRequestView { cursor: Some(cursor@), ..self@.page },
                ..self@
            }),
    {
        ReleaseListPaginationOperation { page: self.page.cursor(cursor), ..self }
    }

    /// The listing on the page given.
    pub fn list(self) -> (r: ReleaseListOperation<B>)
        ensures
            r.releases == self.releases,
            r@ == (ReleaseListOperationView { repo: self@.repo, page: Some(self@.page) }),
    {
        ReleaseListOperation { releases: self.releases, repo: self.repo, page: Some(self.page.build()) }
    }
}

} // verus!
