//! Operations on the pipelines of one repository: what each one asks the backend
//! for, or why it cannot.
use vstd::prelude::*;

use super::queries::{PipelineListQuery, PipelineListQueryView, PipelineQueryBuilder};
use super::{Pipeline, PipelineId, PipelineView};
use crate::error::{invalid_input, CognitionResult, ErrorView};
use crate::pagination::{PageRequestBuilder, PageRequestView};
use crate::repos::resources::opt_str_view;
use crate::repos::{Repo, RepoView};
use crate::text::lit;

verus! {

/// What a scoped pipeline operation was given.
pub struct ScopedPipelineView {
    pub repo: RepoView,
    pub id: Option<Seq<char>>,
}

/// An operation on the pipelines of one repository, over the backend `B`.
pub struct ScopedPipelineOperation<B> {
    pub pipelines: B,
    pub repo: Repo,
    pub id: Option<String>,
}

impl<B> View for ScopedPipelineOperation<B> {
    type V = ScopedPipelineView;

    closed spec fn view(&self) -> ScopedPipelineView {
        ScopedPipelineView { repo: self.repo@, id: opt_str_view(self.id) }
    }
}

impl<B> ScopedPipelineOperation<B> {
    pub fn make(pipelines: B, repo: Repo) -> (r: Self)
        ensures
            r.pipelines == pipelines,
            r@ == (ScopedPipelineView { repo: repo@, id: None }),
    {
        ScopedPipelineOperation { pipelines, repo, id: None }
    }

    pub fn id(self, id: &str) -> (r: Self)
        ensures
            r.pipelines == self.pipelines,
            r@ == (ScopedPipelineView { id: Some(id@), ..self@ }),
    {
        ScopedPipelineOperation { id: Some(lit(id)), ..self }
    }

    /// Starts giving a page of the listing, with no limit or cursor yet.
    pub fn pagination(self) -> (r: PipelinePaginationOperation<B>)
        ensures
            r.pipelines == self.pipelines,
            r@ == (PipelinePaginationView {
                repo: self@.repo,
                page: PageRequestView { limit: None, cursor: None },
            }),
    {
        PipelinePaginationOperation {
            pipelines: self.pipelines,
            repo: self.repo,
            page: PageRequestBuilder::default(),
        }
    }

    /// The pipeline named: the identifier is required.
    fn named(self) -> (r: CognitionResult<(B, Pipeline)>)
        ensures
            match self@.id {
                Some(id) => r matches Ok((b, p)) && b == self.pipelines && p@ == (PipelineView {
                    repo: self@.repo,
                    id,
                }),
                None => r matches Err(e) && e@ == ErrorView::InvalidInput(
                    "pipeline id is required"@,
                ),
            },
    {
        match self.id {
            Some(id) => Ok((self.pipelines, Pipeline::make(self.repo, PipelineId::make(id.as_str())))),
            None => Err(invalid_input("pipeline id is required")),
        }
    }

    /// The pipeline to get: the identifier is required.
    pub fn get(self) -> (r: CognitionResult<(B, Pipeline)>)
        ensures
            match self@.id {
                Some(id) => r matches Ok((b, p)) && b == self.pipelines && p@ == (PipelineView {
                    repo: self@.repo,
                    id,
                }),
                None => r matches Err(e) && e@ == ErrorView::InvalidInput(
                    "pipeline id is required"@,
                ),
            },
    {
        self.named()
    }

    /// The listing of the pipelines of the repository, on no page in particular.
    pub fn list(self) -> (r: (B, PipelineListQuery))
        ensures
            r.0 == self.pipelines,
            r.1@ == (PipelineListQueryView { repo: self@.repo, page: None }),
    {
        (self.pipelines, PipelineQueryBuilder.list(self.repo, None))
    }

    /// The pipeline to run again: the identifier is required.
    pub fn rerun(self) -> (r: CognitionResult<(B, Pipeline)>)
        ensures
            match self@.id {
                Some(id) => r matches Ok((b, p)) && b == self.pipelines && p@ == (PipelineView {
                    repo: self@.repo,
                    id,
                }),
                None => r matches Err(e) && e@ == ErrorView::InvalidInput(
                    "pipeline id is required"@,
                ),
            },
    {
        self.named()
    }

    /// The pipeline to cancel: the identifier is required.
    pub fn cancel(self) -> (r: CognitionResult<(B, Pipeline)>)
        ensures
            match self@.id {
                Some(id) => r matches Ok((b, p)) && b == self.pipelines && p@ == (PipelineView {
                    repo: self@.repo,
                    id,
                }),
                None => r matches Err(e) && e@ == ErrorView::InvalidInput(
                    "pipeline id is required"@,
                ),
            },
    {
        self.named()
    }
}

/// What a paginated pipeline listing was given.
pub struct PipelinePaginationView {
    pub repo: RepoView,
    pub page: PageRequestView,
}

/// A page of a pipeline listing being given.
pub struct PipelinePaginationOperation<B> {
    pub pipelines: B,
    pub repo: Repo,
    pub page: PageRequestBuilder,
}

impl<B> View for PipelinePaginationOperation<B> {
    type V = PipelinePaginationView;

    closed spec fn view(&self) -> PipelinePaginationView {
        PipelinePaginationView { repo: self.repo@, page: self.page@ }
    }
}

impl<B> PipelinePaginationOperation<B> {
    pub fn limit(self, limit: u16) -> (r: Self)
        ensures
            r.pipelines == self.pipelines,
            r@ == (PipelinePaginationView {
                page: PageRequestView { limit: Some(limit), ..self@.page },
                ..self@
            }),
    {
        PipelinePaginationOperation { page: self.page.limit(limit), ..self }
    }

    pub fn cursor(self, cursor: &str) -> (r: Self)
        ensures
            r.pipelines == self.pipelines,
            r@ == (PipelinePaginationView {
                page: PageRequestView { cursor: Some(cursor@), ..self@.page },
                ..self@
            }),
    {
        PipelinePaginationOperation { page: self.page.cursor(cursor), ..self }
    }

    /// The listing on the page given.
    pub fn list(self) -> (r: (B, PipelineListQuery))
        ensures
            r.0 == self.pipelines,
            r.1@ == (PipelineListQueryView { repo: self@.repo, page: Some(self@.page) }),
    {
        (self.pipelines, PipelineQueryBuilder.list(self.repo, Some(self.page.build())))
    }
}

} // verus!
