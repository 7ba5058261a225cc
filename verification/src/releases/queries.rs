//! Queries that list the releases of a repository.
use vstd::prelude::*;

use crate::pagination::{page_request_view, PageRequest, PageRequestView};
use crate::repos::{Repo, RepoView};

verus! {

/// Starts a release query.
#[derive(Clone, Copy, Debug, Default, PartialEq, Eq)]
pub struct ReleaseQueryBuilder;

impl ReleaseQueryBuilder {
    /// A listing of the releases of `repo`, without a page yet.
    pub fn location(self, repo: Repo) -> (r: ReleaseListQueryBuilder)
        ensures
            r@ == (ReleaseListQueryView { repo: repo@, page: None }),
    {
        ReleaseListQueryBuilder { repo, page: None }
    }

    /// A listing of the releases of `repo`, on `page` if given.
    pub fn list(self, repo: Repo, page: Option<PageRequest>) -> (r: ReleaseListQuery)
        ensures
            r@ == (ReleaseListQueryView { repo: repo@, page: page_request_view(page) }),
    {
        self.location(repo).optional_pagination(page).list()
    }
}

/// A listing being given.
#[derive(Debug, PartialEq, Eq)]
pub struct ReleaseListQueryBuilder {
    repo: Repo,
    page: Option<PageRequest>,
}

pub struct ReleaseListQueryView {
    pub repo: RepoView,
    pub page: Option<PageRequestView>,
}

impl View for ReleaseListQueryBuilder {
    type V = ReleaseListQueryView;

    closed spec fn view(&self) -> ReleaseListQueryView {
        ReleaseListQueryView { repo: self.repo@, page: page_request_view(self.page) }
    }
}

impl ReleaseListQueryBuilder {
    pub fn pagination(self, page: PageRequest) -> (r: Self)
        ensures
            r@ == (ReleaseListQueryView { page: Some(page@), ..self@ }),
    {
        ReleaseListQueryBuilder { page: Some(page), ..self }
    }

    pub fn optional_pagination(self, page: Option<PageRequest>) -> (r: Self)
        ensures
            r@ == (ReleaseListQueryView { page: page_request_view(page), ..self@ }),
    {
        ReleaseListQueryBuilder { page, ..self }
    }

    pub fn list(self) -> (r: ReleaseListQuery)
        ensures
            r@ == self@,
    {
        ReleaseListQuery { repo: self.repo, page: self.page }
    }
}

/// A listing of the releases of a repository, on a page or not.
#[derive(Debug, PartialEq, Eq)]
pub struct ReleaseListQuery {
    repo: Repo,
    page: Option<PageRequest>,
}

impl View for ReleaseListQuery {
    type V = ReleaseListQueryView;

    closed spec fn view(&self) -> ReleaseListQueryView {
        ReleaseListQueryView { repo: self.repo@, page: page_request_view(self.page) }
    }
}

impl ReleaseListQuery {
    pub fn repo(&self) -> (r: &Repo)
        ensures
            r@ == self@.repo,
    {
        &self.repo
    }

    pub fn page(&self) -> (r: Option<&PageRequest>)
        ensures
            match r {
                Some(p) => self@.page == Some(p@),
                None => self@.page is None,
            },
    {
        self.page.as_ref()
    }
}

} // verus!
