//! Queries that list the code_reviews of a repository.
use vstd::prelude::*;

use crate::pagination::{page_request_view, PageRequest, PageRequestView};
use crate::repos::{Repo, RepoView};

verus! {

/// Starts a code_review query.
#[derive(Clone, Copy, Debug, Default, PartialEq, Eq)]
pub struct CodeReviewQueryBuilder;

impl CodeReviewQueryBuilder {
    /// A listing of the code_reviews of `repo`, without a page yet.
    pub fn location(self, repo: Repo) -> (r: CodeReviewListQueryBuilder)
        ensures
            r@ == (CodeReviewListQueryView { repo: repo@, page: None }),
    {
        CodeReviewListQueryBuilder { repo, page: None }
    }

    /// A listing of the code_reviews of `repo`, on `page` if given.
    pub fn list(self, repo: Repo, page: Option<PageRequest>) -> (r: CodeReviewListQuery)
        ensures
            r@ == (CodeReviewListQueryView { repo: repo@, page: page_request_view(page) }),
    {
        self.location(repo).optional_pagination(page).list()
    }
}

/// A listing being given.
#[derive(Debug, PartialEq, Eq)]
pub struct CodeReviewListQueryBuilder {
    repo: Repo,
    page: Option<PageRequest>,
}

pub struct CodeReviewListQueryView {
    pub repo: RepoView,
    pub page: Option<PageRequestView>,
}

impl View for CodeReviewListQueryBuilder {
    type V = CodeReviewListQueryView;

    closed spec fn view(&self) -> CodeReviewListQueryView {
        CodeReviewListQueryView { repo: self.repo@, page: page_request_view(self.page) }
    }
}

impl CodeReviewListQueryBuilder {
    pub fn pagination(self, page: PageRequest) -> (r: Self)
        ensures
            r@ == (CodeReviewListQueryView { page: Some(page@), ..self@ }),
    {
        CodeReviewListQueryBuilder { page: Some(page), ..self }
    }

    pub fn optional_pagination(self, page: Option<PageRequest>) -> (r: Self)
        ensures
            r@ == (CodeReviewListQueryView { page: page_request_view(page), ..self@ }),
    {
        CodeReviewListQueryBuilder { page, ..self }
    }

    pub fn list(self) -> (r: CodeReviewListQuery)
        ensures
            r@ == self@,
    {
        CodeReviewListQuery { repo: self.repo, page: self.page }
    }
}

/// A listing of the code_reviews of a repository, on a page or not.
#[derive(Debug, PartialEq, Eq)]
pub struct CodeReviewListQuery {
    repo: Repo,
    page: Option<PageRequest>,
}

impl View for CodeReviewListQuery {
    type V = CodeReviewListQueryView;

    closed spec fn view(&self) -> CodeReviewListQueryView {
        CodeReviewListQueryView { repo: self.repo@, page: page_request_view(self.page) }
    }
}

impl CodeReviewListQuery {
    pub fn repo(&self) -> (r: &Repo)
        ensures
            r@ == self@.repo,
    {
        &self.repo
    }

    pub fn page(&self) -> (r: Option<&PageRequest>)
        ensures
            match r {
                Some(p) => self@.page == Some(p@),
                None => self@.page is None,
            },
    {
        self.page.as_ref()
    }
}

} // verus!
