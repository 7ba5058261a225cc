//! The manager: a driver (a provider that knows its URLs and requests) and fluent
//! builders that name repositories, releases and pipelines, and ask the driver for
//! the URL or request of an operation on them.
use vstd::prelude::*;

use crate::code_reviews::{code_review, CodeReview, CodeReviewDraft, CodeReviewListQuery, CodeReviewPatch, MissingCodeReviewId, MissingCodeReviewRepo};
use crate::error::{unsupported_operation, CognitionResult, ErrorView};
use crate::issues::{issue, Issue, IssueDraft, IssueListQuery, IssuePatch, MissingIssueId, MissingIssueRepo};
use crate::http::{Request, RequestUrl};
use crate::pagination::{pagination, PageRequest, PaginationBuilder};
use crate::pipelines::{
    pipeline, MissingPipelineId, MissingPipelineRepo, Pipeline, PipelineBuilder, PipelineListQuery,
};
use crate::provider::Provider;
use crate::releases::{
    release, MissingReleaseId, MissingReleaseRepo, Release, ReleaseBuilder, ReleaseDraft,
    ReleaseListQuery, ReleasePatch,
};
use crate::repos::resources::{BranchDraft, RepositoryDraft, RepositoryPatch};
use crate::repos::{repo, MissingOwnerName, MissingRepositoryName, Repo, RepoBuilder};
use crate::repositories::{RepositoryListQuery, RepositorySearchQuery};

pub mod code_review_mutations;
pub mod code_reviews;
pub mod issue_mutations;
pub mod issues;
pub mod pipelines;
pub mod release_mutations;
pub mod releases;
pub mod repo_mutations;
pub mod repos;
pub mod retry;
pub mod send;
pub mod rate_limit;
pub mod middleware;

pub use code_review_mutations::ManagedCodeReviewUpdateBuilder;
pub use code_reviews::{
    ManagedCodeReview, ManagedCodeReviewBuilder, ManagedCodeReviewCollection,
    ManagedCodeReviewDraftBuilder, ManagedRepoCodeReviews, ManagedRepoCodeReviewsPagination,
};
pub use issue_mutations::ManagedIssueUpdateBuilder;
pub use issues::{
    ManagedIssue, ManagedIssueBuilder, ManagedIssueCollection, ManagedIssueDraftBuilder,
    ManagedRepoIssues, ManagedRepoIssuesPagination,
};
pub use pipelines::{
    ManagedPipeline, ManagedPipelineBuilder, ManagedPipelineCollection, ManagedRepoPipelines,
    ManagedRepoPipelinesPagination,
};
pub use release_mutations::ManagedReleaseUpdateBuilder;
pub use releases::{
    ManagedRelease, ManagedReleaseBuilder, ManagedReleaseCollection, ManagedReleaseDraftBuilder,
    ManagedRepoReleases, ManagedRepoReleasesPagination,
};
pub use middleware::{ManagedMiddlewareTransportBuilder, TransportLayer, TransportLayers};
pub use rate_limit::ManagedRateLimitTransportBuilder;
pub use retry::ManagedRetryTransportBuilder;
pub use repo_mutations::ManagedRepositoryUpdateBuilder;
pub use repos::{
    ManagedRepo, ManagedRepoBranchBuilder, ManagedRepoBuilder, ManagedRepoCollection,
    ManagedRepositoryDraftBuilder,
};

verus! {

/// A provider that knows the URLs and requests of repository operations.
pub trait ManagedProvider: Clone + Provider {
    fn repo_url(&self, repo: &Repo) -> RequestUrl;

    fn repo_branches_url(&self, repo: &Repo, page: Option<&PageRequest>) -> RequestUrl;

    fn repo_commits_url(&self, repo: &Repo, page: Option<&PageRequest>) -> RequestUrl;

    fn repo_list_url(&self, query: &RepositoryListQuery) -> RequestUrl;

    fn repo_search_url(&self, query: &RepositorySearchQuery) -> RequestUrl;

    fn repo_create_request(&self, draft: &RepositoryDraft) -> Request;

    fn repo_update_request(&self, patch: &RepositoryPatch) -> Request;

    fn repo_delete_request(&self, repo: &Repo) -> Request;

    fn repo_branch_create_request(&self, draft: &BranchDraft) -> CognitionResult<Request>;

    fn repo_branch_delete_request(&self, repo: &Repo, name: &str) -> CognitionResult<Request>;
}

/// A client of a provider, which can take on a credential.
pub trait ProviderClient: Clone + Provider {
    /// What the client authenticates with.
    type Credential;

    fn auth(self, credential: Self::Credential) -> Self;
}

/// A driver that can make a client of its provider over a transport.
pub trait ManagedClientProvider: ManagedProvider {
    type Client: ProviderClient;

    fn client<T>(&self, transport: T) -> Self::Client;
}

/// A provider that also knows the URLs and requests of issue operations.
pub trait ManagedIssueProvider: ManagedProvider {
    fn issue_url(&self, issue: &Issue) -> RequestUrl;

    fn issue_list_url(&self, query: &IssueListQuery) -> RequestUrl;

    fn issue_create_request(&self, draft: &IssueDraft) -> Request;

    fn issue_update_request(&self, patch: &IssuePatch) -> Request;

    /// Closing is an update unless the provider says otherwise.
    fn issue_close_request(&self, patch: &IssuePatch) -> (r: Request)
        default_ensures
            call_ensures(Self::issue_update_request, (self, patch), r),
    {
        self.issue_update_request(patch)
    }

    /// Deleting is not offered unless the provider says otherwise.
    fn issue_delete_request(&self, issue: &Issue) -> (r: CognitionResult<Request>)
        default_ensures
            r matches Err(e) && e@ == ErrorView::UnsupportedOperation("issue delete"@),
    {
        Err(unsupported_operation("issue delete"))
    }
}

/// A provider that also knows the URLs and requests of code review operations.
pub trait ManagedCodeReviewProvider: ManagedProvider {
    fn code_review_url(&self, code_review: &CodeReview) -> RequestUrl;

    fn code_review_list_url(&self, query: &CodeReviewListQuery) -> RequestUrl;

    fn code_review_create_request(&self, draft: &CodeReviewDraft) -> Request;

    fn code_review_update_request(&self, patch: &CodeReviewPatch) -> Request;

    fn code_review_merge_request(&self, code_review: &CodeReview) -> Request;

    fn code_review_close_request(&self, code_review: &CodeReview) -> Request;

    /// Deleting is not offered unless the provider says otherwise.
    fn code_review_delete_request(&self, code_review: &CodeReview) -> (r: CognitionResult<Request>)
        default_ensures
            r matches Err(e) && e@ == ErrorView::UnsupportedOperation("code review delete"@),
    {
        Err(unsupported_operation("code review delete"))
    }
}

/// A provider that also knows the URLs and requests of release operations.
pub trait ManagedReleaseProvider: ManagedProvider {
    fn release_url(&self, release: &Release) -> RequestUrl;

    fn release_list_url(&self, query: &ReleaseListQuery) -> RequestUrl;

    fn release_create_request(&self, draft: &ReleaseDraft) -> Request;

    fn release_update_request(&self, patch: &ReleasePatch) -> Request;

    fn release_delete_request(&self, release: &Release) -> Request;
}

/// A provider that also knows the URLs and requests of pipeline operations.
pub trait ManagedPipelineProvider: ManagedProvider {
    fn pipeline_url(&self, pipeline: &Pipeline) -> RequestUrl;

    fn pipeline_list_url(&self, query: &PipelineListQuery) -> RequestUrl;

    fn pipeline_rerun_request(&self, pipeline: &Pipeline) -> CognitionResult<Request>;

    fn pipeline_cancel_request(&self, pipeline: &Pipeline) -> CognitionResult<Request>;
}

/// The manager of one driver.
#[derive(Debug, PartialEq, Eq)]
pub struct VcsManager<Driver> {
    pub driver: Driver,
}

/// Another name for the manager.
pub type CognitionManager<Driver> = VcsManager<Driver>;

impl<Driver: Clone> Clone for VcsManager<Driver> {
    fn clone(&self) -> (r: Self)
        ensures
            cloned(self.driver, r.driver),
    {
        VcsManager { driver: self.driver.clone() }
    }
}

impl<Driver: ManagedProvider> VcsManager<Driver> {
    /// A repository named piece by piece, with a copy of this manager.
    pub fn repo(&self) -> (r: ManagedRepoBuilder<Driver, MissingOwnerName, MissingRepositoryName>)
        ensures
            cloned(self.driver, r.manager.driver),
    {
        ManagedRepoBuilder { manager: self.clone(), repo: repo() }
    }

    pub fn driver(&self) -> (r: &Driver)
        ensures
            *r == self.driver,
    {
        &self.driver
    }

    pub fn pagination(&self) -> (r: PaginationBuilder) {
        pagination()
    }
}

impl<Driver: ManagedClientProvider> VcsManager<Driver> {
    /// The driver's client over `transport`.
    pub fn transport<T>(&self, transport: T) -> (r: Driver::Client)
        ensures
            call_ensures(Driver::client::<T>, (&self.driver, transport), r),
    {
        self.driver.client(transport)
    }
}

impl<Driver: ManagedIssueProvider> VcsManager<Driver> {
    /// An issue named piece by piece, with a copy of this manager.
    pub fn issue(&self) -> (r: ManagedIssueBuilder<Driver, MissingIssueRepo, MissingIssueId>)
        ensures
            cloned(self.driver, r.manager.driver),
    {
        ManagedIssueBuilder { manager: self.clone(), issue: issue() }
    }
}

impl<Driver: ManagedCodeReviewProvider> VcsManager<Driver> {
    /// A code review named piece by piece, with a copy of this manager.
    pub fn code_review(&self) -> (r: ManagedCodeReviewBuilder<Driver, MissingCodeReviewRepo, MissingCodeReviewId>)
        ensures
            cloned(self.driver, r.manager.driver),
    {
        ManagedCodeReviewBuilder { manager: self.clone(), code_review: code_review() }
    }
}

impl<Driver: ManagedReleaseProvider> VcsManager<Driver> {
    /// A release named piece by piece, with a copy of this manager.
    pub fn release(&self) -> (r: ManagedReleaseBuilder<Driver, MissingReleaseRepo, MissingReleaseId>)
        ensures
            cloned(self.driver, r.manager.driver),
    {
        ManagedReleaseBuilder { manager: self.clone(), release: release() }
    }
}

impl<Driver: ManagedPipelineProvider> VcsManager<Driver> {
    /// A pipeline named piece by piece, with a copy of this manager.
    pub fn pipeline(&self) -> (r: ManagedPipelineBuilder<Driver, MissingPipelineRepo, MissingPipelineId>)
        ensures
            cloned(self.driver, r.manager.driver),
    {
        ManagedPipelineBuilder { manager: self.clone(), pipeline: pipeline() }
    }
}

/// Starts a manager.
#[derive(Clone, Copy, Debug, Default, PartialEq, Eq)]
pub struct VcsManagerBuilder;

impl VcsManagerBuilder {
    pub fn driver<Driver: ManagedProvider>(self, driver: Driver) -> (r: VcsManagerWithDriverBuilder<Driver>)
        ensures
            r.driver == driver,
    {
        VcsManagerWithDriverBuilder { driver }
    }
}

/// A manager whose driver was given.
#[derive(Clone, Debug, PartialEq, Eq)]
pub struct VcsManagerWithDriverBuilder<Driver> {
    pub driver: Driver,
}

impl<Driver: ManagedProvider> VcsManagerWithDriverBuilder<Driver> {
    pub fn build(self) -> (r: VcsManager<Driver>)
        ensures
            r.driver == self.driver,
    {
        VcsManager { driver: self.driver }
    }
}

} // verus!
