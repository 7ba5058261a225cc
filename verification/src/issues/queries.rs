//! Queries that list the issues of a repository.
use vstd::prelude::*;

use crate::pagination::{page_request_view, PageRequest, PageRequestView};
use crate::repos::{Repo, RepoView};

verus! {

/// Starts a issue query.
#[derive(Clone, Copy, Debug, Default, PartialEq, Eq)]
pub struct IssueQueryBuilder;

impl IssueQueryBuilder {
    /// A listing of the issues of `repo`, without a page yet.
    pub fn location(self, repo: Repo) -> (r: IssueListQueryBuilder)
        ensures
            r@ == (IssueListQueryView { repo: repo@, page: None }),
    {
        IssueListQueryBuilder { repo, page: None }
    }

    /// A listing of the issues of `repo`, on `page` if given.
    pub fn list(self, repo: Repo, page: Option<PageRequest>) -> (r: IssueListQuery)
        ensures
            r@ == (IssueListQueryView { repo: repo@, page: page_request_view(page) }),
    {
        self.location(repo).optional_pagination(page).list()
    }
}

/// A listing being given.
#[derive(Debug, PartialEq, Eq)]
pub struct IssueListQueryBuilder {
    repo: Repo,
    page: Option<PageRequest>,
}

pub struct IssueListQueryView {
    pub repo: RepoView,
    pub page: Option<PageRequestView>,
}

impl View for IssueListQueryBuilder {
    type V = IssueListQueryView;

    closed spec fn view(&self) -> IssueListQueryView {
        IssueListQueryView { repo: self.repo@, page: page_request_view(self.page) }
    }
}

impl IssueListQueryBuilder {
    pub fn pagination(self, page: PageRequest) -> (r: Self)
        ensures
            r@ == (IssueListQueryView { page: Some(page@), ..self@ }),
    {
        IssueListQueryBuilder { page: Some(page), ..self }
    }

    pub fn optional_pagination(self, page: Option<PageRequest>) -> (r: Self)
        ensures
            r@ == (IssueListQueryView { page: page_request_view(page), ..self@ }),
    {
        IssueListQueryBuilder { page, ..self }
    }

    pub fn list(self) -> (r: IssueListQuery)
        ensures
            r@ == self@,
    {
        IssueListQuery { repo: self.repo, page: self.page }
    }
}

/// A listing of the issues of a repository, on a page or not.
#[derive(Debug, PartialEq, Eq)]
pub struct IssueListQuery {
    repo: Repo,
    page: Option<PageRequest>,
}

impl View for IssueListQuery {
    type V = IssueListQueryView;

    closed spec fn view(&self) -> IssueListQueryView {
        IssueListQueryView { repo: self.repo@, page: page_request_view(self.page) }
    }
}

impl IssueListQuery {
    pub fn repo(&self) -> (r: &Repo)
        ensures
            r@ == self@.repo,
    {
        &self.repo
    }

    pub fn page(&self) -> (r: Option<&PageRequest>)
        ensures
            match r {
                Some(p) => self@.page == Some(p@),
                None => self@.page is None,
            },
    {
        self.page.as_ref()
    }
}

} // verus!
