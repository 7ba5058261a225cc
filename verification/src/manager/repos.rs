//! Managed repositories: named piece by piece, then asked for URLs and requests.
use vstd::prelude::*;

use super::{
    ManagedCodeReviewProvider, ManagedIssueProvider, ManagedPipelineProvider, ManagedProvider,
    ManagedReleaseProvider, VcsManager,
};
use super::code_reviews::{ManagedCodeReviewBuilder, ManagedRepoCodeReviews};
use super::issues::{ManagedIssueBuilder, ManagedRepoIssues};
use crate::code_reviews::{code_review, ProvidedCodeReviewId, ProvidedCodeReviewRepo};
use crate::issues::{issue, ProvidedIssueId, ProvidedIssueRepo};
use super::pipelines::{ManagedPipelineBuilder, ManagedRepoPipelines};
use super::releases::{ManagedReleaseBuilder, ManagedRepoReleases};
use crate::error::{invalid_input, CognitionResult, ErrorView};
use crate::http::{Request, RequestUrl};
use crate::pagination::{page_request_view, PageRequest};
use crate::pipelines::{pipeline, ProvidedPipelineId, ProvidedPipelineRepo};
use crate::releases::{release, ProvidedReleaseId, ProvidedReleaseRepo};
use crate::repos::names::built_repo;
use crate::repos::resources::{
    opt_str_view, BranchDraft, BranchDraftView, RepositoryDraft, RepositoryDraftBuilder,
    RepositoryDraftView,
};
use crate::repos::{
    MissingOwnerName, MissingRepositoryName, ProvidedOwnerName, ProvidedRepositoryName, Repo,
    RepoBuilder, RepoQueryBuilder, RepoView, Visibility,
};
use crate::repositories::{RepositoryListQuery, RepositorySearchQuery};
use crate::text::lit;

verus! {

/// A repository named piece by piece, with its manager.
pub struct ManagedRepoBuilder<Driver, OwnerNameState, RepositoryNameState> {
    pub manager: VcsManager<Driver>,
    pub repo: RepoBuilder<OwnerNameState, RepositoryNameState>,
}

impl<Driver: ManagedProvider> ManagedRepoBuilder<Driver, MissingOwnerName, MissingRepositoryName> {
    /// The collection of repositories, with a copy of the manager.
    pub fn collection(&self) -> (r: ManagedRepoCollection<Driver>)
        ensures
            cloned(self.manager.driver, r.manager.driver),
    {
        ManagedRepoCollection { manager: self.manager.clone() }
    }

    pub fn query(&self) -> (r: RepoQueryBuilder) {
        RepoQueryBuilder
    }

    /// A draft of `repo`, private and without description until told.
    pub fn draft(&self, repo: Repo) -> (r: ManagedRepositoryDraftBuilder<Driver>)
        ensures
            cloned(self.manager.driver, r.manager.driver),
            r.draft@ == (RepositoryDraftView {
                repo: repo@,
                visibility: Visibility::Private,
                description: None,
            }),
    {
        ManagedRepositoryDraftBuilder {
            manager: self.manager.clone(),
            draft: RepositoryDraftBuilder::make(repo),
        }
    }
}

impl<Driver: ManagedProvider, N> ManagedRepoBuilder<Driver, MissingOwnerName, N> {
    pub fn owner(self, owner_name: &str) -> (r: ManagedRepoBuilder<Driver, ProvidedOwnerName, N>)
        ensures
            r.manager == self.manager,
            r.repo.owner_name.owner_name@ == owner_name@,
            r.repo.repository_name == self.repo.repository_name,
    {
        ManagedRepoBuilder { manager: self.manager, repo: self.repo.owner(owner_name) }
    }
}

impl<Driver: ManagedProvider, O> ManagedRepoBuilder<Driver, O, MissingRepositoryName> {
    pub fn name(self, repository_name: &str) -> (r: ManagedRepoBuilder<Driver, O, ProvidedRepositoryName>)
        ensures
            r.manager == self.manager,
            r.repo.repository_name.repository_name@ == repository_name@,
            r.repo.owner_name == self.repo.owner_name,
    {
        ManagedRepoBuilder { manager: self.manager, repo: self.repo.name(repository_name) }
    }
}

impl<Driver: ManagedProvider> ManagedRepoBuilder<Driver, ProvidedOwnerName, ProvidedRepositoryName> {
    pub fn build(self) -> (r: ManagedRepo<Driver>)
        ensures
            r.manager == self.manager,
            r.repo@ == built_repo(self.repo),
    {
        self.get()
    }

    pub fn get(self) -> (r: ManagedRepo<Driver>)
        ensures
            r.manager == self.manager,
            r.repo@ == built_repo(self.repo),
    {
        ManagedRepo { manager: self.manager, repo: self.repo.build() }
    }
}

impl<Driver: ManagedIssueProvider> ManagedRepoBuilder<Driver, ProvidedOwnerName, ProvidedRepositoryName> {
    /// The issue `id` of this repository.
    pub fn issue(self, id: &str) -> (r: ManagedIssueBuilder<Driver, ProvidedIssueRepo, ProvidedIssueId>)
        ensures
            r.manager == self.manager,
            r.issue.repo.repo@ == built_repo(self.repo),
            r.issue.id.id@ == id@,
    {
        ManagedIssueBuilder { manager: self.manager, issue: issue().repo(self.repo.build()).id(id) }
    }

    /// The issues of this repository, on no page in particular.
    pub fn issues(self) -> (r: ManagedRepoIssues<Driver>)
        ensures
            r.manager == self.manager,
            r.repo@ == built_repo(self.repo),
            r.page is None,
    {
        ManagedRepoIssues { manager: self.manager, repo: self.repo.build(), page: None }
    }
}

impl<Driver: ManagedCodeReviewProvider> ManagedRepoBuilder<Driver, ProvidedOwnerName, ProvidedRepositoryName> {
    /// The code review `id` of this repository.
    pub fn code_review(self, id: &str) -> (r: ManagedCodeReviewBuilder<Driver, ProvidedCodeReviewRepo, ProvidedCodeReviewId>)
        ensures
            r.manager == self.manager,
            r.code_review.repo.repo@ == built_repo(self.repo),
            r.code_review.id.id@ == id@,
    {
        ManagedCodeReviewBuilder {
            manager: self.manager,
            code_review: code_review().repo(self.repo.build()).id(id),
        }
    }

    /// The code reviews of this repository, on no page in particular.
    pub fn code_reviews(self) -> (r: ManagedRepoCodeReviews<Driver>)
        ensures
            r.manager == self.manager,
            r.repo@ == built_repo(self.repo),
            r.page is None,
    {
        ManagedRepoCodeReviews { manager: self.manager, repo: self.repo.build(), page: None }
    }
}

impl<Driver: ManagedReleaseProvider> ManagedRepoBuilder<Driver, ProvidedOwnerName, ProvidedRepositoryName> {
    /// The release `id` of this repository.
    pub fn release(self, id: &str) -> (r: ManagedReleaseBuilder<Driver, ProvidedReleaseRepo, ProvidedReleaseId>)
        ensures
            r.manager == self.manager,
            r.release.repo.repo@ == built_repo(self.repo),
            r.release.id.id@ == id@,
    {
        ManagedReleaseBuilder { manager: self.manager, release: release().repo(self.repo.build()).id(id) }
    }

    /// The releases of this repository, on no page in particular.
    pub fn releases(self) -> (r: ManagedRepoReleases<Driver>)
        ensures
            r.manager == self.manager,
            r.repo@ == built_repo(self.repo),
            r.page is None,
    {
        ManagedRepoReleases { manager: self.manager, repo: self.repo.build(), page: None }
    }
}

impl<Driver: ManagedPipelineProvider> ManagedRepoBuilder<Driver, ProvidedOwnerName, ProvidedRepositoryName> {
    /// The pipeline `id` of this repository.
    pub fn pipeline(self, id: &str) -> (r: ManagedPipelineBuilder<Driver, ProvidedPipelineRepo, ProvidedPipelineId>)
        ensures
            r.manager == self.manager,
            r.pipeline.repo.repo@ == built_repo(self.repo),
            r.pipeline.id.id@ == id@,
    {
        ManagedPipelineBuilder { manager: self.manager, pipeline: pipeline().repo(self.repo.build()).id(id) }
    }

    /// The pipelines of this repository, on no page in particular.
    pub fn pipelines(self) -> (r: ManagedRepoPipelines<Driver>)
        ensures
            r.manager == self.manager,
            r.repo@ == built_repo(self.repo),
            r.page is None,
    {
        ManagedRepoPipelines { manager: self.manager, repo: self.repo.build(), page: None }
    }
}

/// A repository draft with its manager.
pub struct ManagedRepositoryDraftBuilder<Driver> {
    pub manager: VcsManager<Driver>,
    pub draft: RepositoryDraftBuilder,
}

impl<Driver: ManagedProvider> ManagedRepositoryDraftBuilder<Driver> {
    pub fn visibility(self, visibility: Visibility) -> (r: Self)
        ensures
            r.manager == self.manager,
            r.draft@ == (RepositoryDraftView { visibility, ..self.draft@ }),
    {
        ManagedRepositoryDraftBuilder { manager: self.manager, draft: self.draft.visibility(visibility) }
    }

    pub fn description(self, description: &str) -> (r: Self)
        ensures
            r.manager == self.manager,
            r.draft@ == (RepositoryDraftView { description: Some(description@), ..self.draft@ }),
    {
        ManagedRepositoryDraftBuilder {
            manager: self.manager,
            draft: self.draft.description(description),
        }
    }

    /// The driver's request that creates the drafted repository (`self.draft`).
    pub fn create(self) -> (r: Request)
        ensures
            exists|d: RepositoryDraft|
                d@ == self.draft@ && call_ensures(
                    Driver::repo_create_request,
                    (&self.manager.driver, &d),
                    r,
                ),
    {
        self.manager.driver.repo_create_request(&self.draft.get())
    }
}

/// A repository with its manager.
pub struct ManagedRepo<Driver> {
    pub manager: VcsManager<Driver>,
    pub repo: Repo,
}

impl<Driver: ManagedProvider> ManagedRepo<Driver> {
    /// The driver's URL of the repository.
    pub fn url(&self) -> (r: RequestUrl)
        ensures
            call_ensures(Driver::repo_url, (&self.manager.driver, &self.repo), r),
    {
        self.manager.driver.repo_url(&self.repo)
    }

    /// The driver's URL of the repository's branches, on `page` if given.
    pub fn branches(&self, page: Option<&PageRequest>) -> (r: RequestUrl)
        ensures
            call_ensures(Driver::repo_branches_url, (&self.manager.driver, &self.repo, page), r),
    {
        self.manager.driver.repo_branches_url(&self.repo, page)
    }

    /// The driver's URL of the repository's commits, on `page` if given.
    pub fn commits(&self, page: Option<&PageRequest>) -> (r: RequestUrl)
        ensures
            call_ensures(Driver::repo_commits_url, (&self.manager.driver, &self.repo, page), r),
    {
        self.manager.driver.repo_commits_url(&self.repo, page)
    }

    /// The driver's request that deletes the repository.
    pub fn delete(&self) -> (r: Request)
        ensures
            call_ensures(Driver::repo_delete_request, (&self.manager.driver, &self.repo), r),
    {
        self.manager.driver.repo_delete_request(&self.repo)
    }

    /// A branch of the repository, named piece by piece.
    pub fn branch(&self) -> (r: ManagedRepoBranchBuilder<Driver>)
        ensures
            cloned(self.manager.driver, r.manager.driver),
            r@ == (BranchBuilderView { repo: self.repo@, name: None, sha: None }),
    {
        ManagedRepoBranchBuilder {
            manager: self.manager.clone(),
            repo: self.repo.clone(),
            name: None,
            sha: None,
        }
    }
}

/// What a branch builder was given.
pub struct BranchBuilderView {
    pub repo: RepoView,
    pub name: Option<Seq<char>>,
    pub sha: Option<Seq<char>>,
}

/// A branch of a managed repository, named piece by piece.
pub struct ManagedRepoBranchBuilder<Driver> {
    pub manager: VcsManager<Driver>,
    pub repo: Repo,
    pub name: Option<String>,
    pub sha: Option<String>,
}

impl<Driver> View for ManagedRepoBranchBuilder<Driver> {
    type V = BranchBuilderView;

    closed spec fn view(&self) -> BranchBuilderView {
        BranchBuilderView { repo: self.repo@, name: opt_str_view(self.name), sha: opt_str_view(self.sha) }
    }
}

impl<Driver: ManagedProvider> ManagedRepoBranchBuilder<Driver> {
    pub fn name(self, branch_name: &str) -> (r: Self)
        ensures
            r.manager == self.manager,
            r@ == (BranchBuilderView { name: Some(branch_name@), ..self@ }),
    {
        ManagedRepoBranchBuilder { name: Some(lit(branch_name)), ..self }
    }

    pub fn sha(self, sha: &str) -> (r: Self)
        ensures
            r.manager == self.manager,
            r@ == (BranchBuilderView { sha: Some(sha@), ..self@ }),
    {
        ManagedRepoBranchBuilder { sha: Some(lit(sha)), ..self }
    }

    /// The branch to create: the name, then the sha, are required.
    pub fn draft(&self) -> (r: CognitionResult<BranchDraft>)
        ensures
            match (self@.name, self@.sha) {
                (Some(n), Some(s)) => r matches Ok(d) && d@ == (BranchDraftView {
                    repo: self@.repo,
                    name: n,
                    sha: s,
                }),
                (None, _) => r matches Err(e) && e@ == ErrorView::InvalidInput(
                    "branch name is required"@,
                ),
                (Some(_), None) => r matches Err(e) && e@ == ErrorView::InvalidInput(
                    "branch sha is required"@,
                ),
            },
    {
        let name = match &self.name {
            Some(n) => n.clone(),
            None => {
                return Err(invalid_input("branch name is required"));
            },
        };
        let sha = match &self.sha {
            Some(s) => s.clone(),
            None => {
                return Err(invalid_input("branch sha is required"));
            },
        };
        Ok(BranchDraft::make(self.repo.clone(), name, sha))
    }

    /// The driver's request that creates the branch; without a name or a sha, the
    /// error of `draft`.
    pub fn create(self) -> (r: CognitionResult<Request>)
        ensures
            self@.name is None ==> (r matches Err(e) && e@ == ErrorView::InvalidInput(
                "branch name is required"@,
            )),
            self@.name is Some && self@.sha is None ==> (r matches Err(e) && e@
                == ErrorView::InvalidInput("branch sha is required"@)),
            self@.name is Some && self@.sha is Some ==> exists|d: BranchDraft|
                d@ == (BranchDraftView {
                    repo: self@.repo,
                    name: self@.name->0,
                    sha: self@.sha->0,
                }) && call_ensures(Driver::repo_branch_create_request, (&self.manager.driver, &d), r),
    {
        match self.draft() {
            Ok(d) => self.manager.driver.repo_branch_create_request(&d),
            Err(e) => Err(e),
        }
    }

    /// The driver's request that deletes the branch; the name is required.
    pub fn delete(self) -> (r: CognitionResult<Request>)
        ensures
            self@.name is None ==> (r matches Err(e) && e@ == ErrorView::InvalidInput(
                "branch name is required"@,
            )),
            self@.name is Some ==> exists|n: &str|
                n@ == self@.name->0 && call_ensures(
                    Driver::repo_branch_delete_request,
                    (&self.manager.driver, &self.repo, n),
                    r,
                ),
    {
        match &self.name {
            Some(n) => self.manager.driver.repo_branch_delete_request(&self.repo, n.as_str()),
            None => Err(invalid_input("branch name is required")),
        }
    }
}

/// The collection of a provider's repositories.
pub struct ManagedRepoCollection<Driver> {
    pub manager: VcsManager<Driver>,
}

impl<Driver: ManagedProvider> ManagedRepoCollection<Driver> {
    /// The driver's URL of a listing.
    pub fn list(&self, query: &RepositoryListQuery) -> (r: RequestUrl)
        ensures
            call_ensures(Driver::repo_list_url, (&self.manager.driver, query), r),
    {
        self.manager.driver.repo_list_url(query)
    }

    /// The driver's URL of a search.
    pub fn search(&self, query: &RepositorySearchQuery) -> (r: RequestUrl)
        ensures
            call_ensures(Driver::repo_search_url, (&self.manager.driver, query), r),
    {
        self.manager.driver.repo_search_url(query)
    }
}

} // verus!
