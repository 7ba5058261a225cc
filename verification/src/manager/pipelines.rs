//! Managed pipelines: named piece by piece, then asked for URLs and requests.
use vstd::prelude::*;

use super::{ManagedPipelineProvider, VcsManager};
use crate::http::{Request, RequestUrl};
use crate::pagination::{clone_page_request, page_request_view, PageRequest, PageRequestBuilder, PageRequestView};
use crate::error::CognitionResult;
use crate::pipelines::queries::{PipelineListQuery, PipelineListQueryView, PipelineQueryBuilder};
use crate::pipelines::{
    pipeline, MissingPipelineId, MissingPipelineRepo, ProvidedPipelineId, ProvidedPipelineRepo, Pipeline,
    PipelineBuilder, PipelineView,
};
use crate::repos::resources::opt_str_view;
use crate::repos::{Repo, RepoView};

verus! {

/// A pipeline named piece by piece, with its manager.
pub struct ManagedPipelineBuilder<Driver, RepoState, PipelineIdState> {
    pub manager: VcsManager<Driver>,
    pub pipeline: PipelineBuilder<RepoState, PipelineIdState>,
}

impl<Driver: ManagedPipelineProvider> ManagedPipelineBuilder<Driver, MissingPipelineRepo, MissingPipelineId> {
    /// The collection of pipelines, with a copy of the manager.
    pub fn collection(&self) -> (r: ManagedPipelineCollection<Driver>)
        ensures
            cloned(self.manager.driver, r.manager.driver),
    {
        ManagedPipelineCollection { manager: self.manager.clone() }
    }

    pub fn query(&self) -> (r: PipelineQueryBuilder) {
        PipelineQueryBuilder
    }
}

impl<Driver: ManagedPipelineProvider, I> ManagedPipelineBuilder<Driver, MissingPipelineRepo, I> {
    pub fn repo(self, repo: Repo) -> (r: ManagedPipelineBuilder<Driver, ProvidedPipelineRepo, I>)
        ensures
            r.manager == self.manager,
            r.pipeline.repo.repo@ == repo@,
            r.pipeline.id == self.pipeline.id,
    {
        ManagedPipelineBuilder { manager: self.manager, pipeline: self.pipeline.repo(repo) }
    }
}

impl<Driver: ManagedPipelineProvider, R> ManagedPipelineBuilder<Driver, R, MissingPipelineId> {
    pub fn id(self, id: &str) -> (r: ManagedPipelineBuilder<Driver, R, ProvidedPipelineId>)
        ensures
            r.manager == self.manager,
            r.pipeline.id.id@ == id@,
            r.pipeline.repo == self.pipeline.repo,
    {
        ManagedPipelineBuilder { manager: self.manager, pipeline: self.pipeline.id(id) }
    }
}

impl<Driver: ManagedPipelineProvider> ManagedPipelineBuilder<Driver, ProvidedPipelineRepo, ProvidedPipelineId> {
    pub fn build(self) -> (r: ManagedPipeline<Driver>)
        ensures
            r.manager == self.manager,
            r.pipeline@ == (PipelineView { repo: self.pipeline.repo.repo@, id: self.pipeline.id.id@ }),
    {
        self.get()
    }

    pub fn get(self) -> (r: ManagedPipeline<Driver>)
        ensures
            r.manager == self.manager,
            r.pipeline@ == (PipelineView { repo: self.pipeline.repo.repo@, id: self.pipeline.id.id@ }),
    {
        ManagedPipeline { manager: self.manager, pipeline: self.pipeline.build() }
    }
}

/// A pipeline with its manager.
pub struct ManagedPipeline<Driver> {
    pub manager: VcsManager<Driver>,
    pub pipeline: Pipeline,
}

impl<Driver: ManagedPipelineProvider> ManagedPipeline<Driver> {
    /// The driver's URL of the pipeline.
    pub fn url(&self) -> (r: RequestUrl)
        ensures
            call_ensures(Driver::pipeline_url, (&self.manager.driver, &self.pipeline), r),
    {
        self.manager.driver.pipeline_url(&self.pipeline)
    }

    pub fn pipeline(&self) -> (r: &Pipeline)
        ensures
            r@ == self.pipeline@,
    {
        &self.pipeline
    }

    pub fn repo(&self) -> (r: &Repo)
        ensures
            r@ == self.pipeline@.repo,
    {
        self.pipeline.repo()
    }

    /// The driver's request that runs the pipeline again.
    pub fn rerun(&self) -> (r: CognitionResult<Request>)
        ensures
            call_ensures(Driver::pipeline_rerun_request, (&self.manager.driver, &self.pipeline), r),
    {
        self.manager.driver.pipeline_rerun_request(&self.pipeline)
    }

    /// The driver's request that cancels the pipeline.
    pub fn cancel(&self) -> (r: CognitionResult<Request>)
        ensures
            call_ensures(Driver::pipeline_cancel_request, (&self.manager.driver, &self.pipeline), r),
    {
        self.manager.driver.pipeline_cancel_request(&self.pipeline)
    }
}

/// The collection of a provider's pipelines.
pub struct ManagedPipelineCollection<Driver> {
    pub manager: VcsManager<Driver>,
}

impl<Driver: ManagedPipelineProvider> ManagedPipelineCollection<Driver> {
    /// The driver's URL of a listing.
    pub fn list(&self, query: &PipelineListQuery) -> (r: RequestUrl)
        ensures
            call_ensures(Driver::pipeline_list_url, (&self.manager.driver, query), r),
    {
        self.manager.driver.pipeline_list_url(query)
    }
}

/// The pipelines of one repository, on a page or not.
pub struct ManagedRepoPipelines<Driver> {
    pub manager: VcsManager<Driver>,
    pub repo: Repo,
    pub page: Option<PageRequest>,
}

impl<Driver: ManagedPipelineProvider> ManagedRepoPipelines<Driver> {
    /// The listing query of these pipelines.
    pub fn query(&self) -> (r: PipelineListQuery)
        ensures
            r@ == (PipelineListQueryView { repo: self.repo@, page: page_request_view(self.page) }),
    {
        PipelineQueryBuilder.list(self.repo.clone(), clone_page_request(&self.page))
    }

    /// The driver's URL of `query()`.
    pub fn url(&self) -> (r: RequestUrl)
        ensures
            exists|q: PipelineListQuery|
                q@ == (PipelineListQueryView { repo: self.repo@, page: page_request_view(self.page) })
                && call_ensures(Driver::pipeline_list_url, (&self.manager.driver, &q), r),
    {
        let query = self.query();
        self.manager.driver.pipeline_list_url(&query)
    }

    /// Starts giving a page, with no limit or cursor yet.
    pub fn pagination(self) -> (r: ManagedRepoPipelinesPagination<Driver>)
        ensures
            r.manager == self.manager,
            r.repo == self.repo,
            r.page@ == (PageRequestView { limit: None, cursor: None }),
    {
        ManagedRepoPipelinesPagination {
            manager: self.manager,
            repo: self.repo,
            page: PageRequestBuilder::default(),
        }
    }

    pub fn repo(&self) -> (r: &Repo)
        ensures
            r@ == self.repo@,
    {
        &self.repo
    }
}

/// A page of a repository's pipelines being given.
pub struct ManagedRepoPipelinesPagination<Driver> {
    pub manager: VcsManager<Driver>,
    pub repo: Repo,
    pub page: PageRequestBuilder,
}

impl<Driver: ManagedPipelineProvider> ManagedRepoPipelinesPagination<Driver> {
    pub fn limit(self, limit: u16) -> (r: Self)
        ensures
            r.manager == self.manager,
            r.repo == self.repo,
            r.page@ == (PageRequestView { limit: Some(limit), ..self.page@ }),
    {
        ManagedRepoPipelinesPagination { page: self.page.limit(limit), ..self }
    }

    pub fn cursor(self, cursor: &str) -> (r: Self)
        ensures
            r.manager == self.manager,
            r.repo == self.repo,
            r.page@ == (PageRequestView { cursor: Some(cursor@), ..self.page@ }),
    {
        ManagedRepoPipelinesPagination { page: self.page.cursor(cursor), ..self }
    }

    pub fn build(self) -> (r: ManagedRepoPipelines<Driver>)
        ensures
            r.manager == self.manager,
            r.repo == self.repo,
            page_request_view(r.page) == Some(self.page@),
    {
        self.list()
    }

    pub fn get(self) -> (r: ManagedRepoPipelines<Driver>)
        ensures
            r.manager == self.manager,
            r.repo == self.repo,
            page_request_view(r.page) == Some(self.page@),
    {
        self.list()
    }

    /// The pipelines of the repository on the page given.
    pub fn list(self) -> (r: ManagedRepoPipelines<Driver>)
        ensures
            r.manager == self.manager,
            r.repo == self.repo,
            page_request_view(r.page) == Some(self.page@),
    {
        ManagedRepoPipelines { manager: self.manager, repo: self.repo, page: Some(self.page.build()) }
    }

    /// The driver's URL of the listing on the page given.
    pub fn url(self) -> (r: RequestUrl)
        ensures
            exists|q: PipelineListQuery|
                q@ == (PipelineListQueryView { repo: self.repo@, page: Some(self.page@) })
                && call_ensures(Driver::pipeline_list_url, (&self.manager.driver, &q), r),
    {
        self.list().url()
    }
}

} // verus!
