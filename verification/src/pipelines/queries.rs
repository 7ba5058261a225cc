//! Queries that list the pipelines of a repository.
use vstd::prelude::*;

use crate::pagination::{page_request_view, PageRequest, PageRequestView};
use crate::repos::{Repo, RepoView};

verus! {

/// Starts a pipeline query.
#[derive(Clone, Copy, Debug, Default, PartialEq, Eq)]
pub struct PipelineQueryBuilder;

impl PipelineQueryBuilder {
    /// A listing of the pipelines of `repo`, without a page yet.
    pub fn location(self, repo: Repo) -> (r: PipelineListQueryBuilder)
        ensures
            r@ == (PipelineListQueryView { repo: repo@, page: None }),
    {
        PipelineListQueryBuilder { repo, page: None }
    }

    /// A listing of the pipelines of `repo`, on `page` if given.
    pub fn list(self, repo: Repo, page: Option<PageRequest>) -> (r: PipelineListQuery)
        ensures
            r@ == (PipelineListQueryView { repo: repo@, page: page_request_view(page) }),
    {
        self.location(repo).optional_pagination(page).list()
    }
}

/// A listing being given.
#[derive(Debug, PartialEq, Eq)]
pub struct PipelineListQueryBuilder {
    repo: Repo,
    page: Option<PageRequest>,
}

pub struct PipelineListQueryView {
    pub repo: RepoView,
    pub page: Option<PageRequestView>,
}

impl View for PipelineListQueryBuilder {
    type V = PipelineListQueryView;

    closed spec fn view(&self) -> PipelineListQueryView {
        PipelineListQueryView { repo: self.repo@, page: page_request_view(self.page) }
    }
}

impl PipelineListQueryBuilder {
    pub fn pagination(self, page: PageRequest) -> (r: Self)
        ensures
            r@ == (PipelineListQueryView { page: Some(page@), ..self@ }),
    {
        PipelineListQueryBuilder { page: Some(page), ..self }
    }

    pub fn optional_pagination(self, page: Option<PageRequest>) -> (r: Self)
        ensures
            r@ == (PipelineListQueryView { page: page_request_view(page), ..self@ }),
    {
        PipelineListQueryBuilder { page, ..self }
    }

    pub fn list(self) -> (r: PipelineListQuery)
        ensures
            r@ == self@,
    {
        PipelineListQuery { repo: self.repo, page: self.page }
    }
}

/// A listing of the pipelines of a repository, on a page or not.
#[derive(Debug, PartialEq, Eq)]
pub struct PipelineListQuery {
    repo: Repo,
    page: Option<PageRequest>,
}

impl View for PipelineListQuery {
    type V = PipelineListQueryView;

    closed spec fn view(&self) -> PipelineListQueryView {
        PipelineListQueryView { repo: self.repo@, page: page_request_view(self.page) }
    }
}

impl PipelineListQuery {
    pub fn repo(&self) -> (r: &Repo)
        ensures
            r@ == self@.repo,
    {
        &self.repo
    }

    pub fn page(&self) -> (r: Option<&PageRequest>)
        ensures
            match r {
                Some(p) => self@.page == Some(p@),
                None => self@.page is None,
            },
    {
        self.page.as_ref()
    }
}

} // verus!
