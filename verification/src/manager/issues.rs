//! Managed issues: named piece by piece, then asked for URLs and requests.
use vstd::prelude::*;

use super::{ManagedIssueProvider, VcsManager};
use crate::http::{Request, RequestUrl};
use crate::pagination::{clone_page_request, page_request_view, PageRequest, PageRequestBuilder, PageRequestView};
use crate::issues::{
    IssueDraft, IssueDraftBuilder, IssueDraftView, IssuePatch, MissingIssueTitle, ProvidedIssueTitle,
};
use crate::error::CognitionResult;
use crate::issues::queries::{IssueListQuery, IssueListQueryView, IssueQueryBuilder};
use crate::issues::{
    issue, Issue, IssueBuilder, IssueView, MissingIssueId, MissingIssueRepo, ProvidedIssueId,
    ProvidedIssueRepo,
};
use crate::repos::resources::opt_str_view;
use crate::repos::{Repo, RepoView};

verus! {

/// A issue named piece by piece, with its manager.
pub struct ManagedIssueBuilder<Driver, RepoState, IssueIdState> {
    pub manager: VcsManager<Driver>,
    pub issue: IssueBuilder<RepoState, IssueIdState>,
}

impl<Driver: ManagedIssueProvider> ManagedIssueBuilder<Driver, MissingIssueRepo, MissingIssueId> {
    /// The collection of issues, with a copy of the manager.
    pub fn collection(&self) -> (r: ManagedIssueCollection<Driver>)
        ensures
            cloned(self.manager.driver, r.manager.driver),
    {
        ManagedIssueCollection { manager: self.manager.clone() }
    }

    pub fn query(&self) -> (r: IssueQueryBuilder) {
        IssueQueryBuilder
    }

    /// A issue draft with nothing given yet, with a copy of the manager.
    pub fn draft(&self) -> (r: ManagedIssueDraftBuilder<Driver, MissingIssueRepo, MissingIssueTitle>)
        ensures
            cloned(self.manager.driver, r.manager.driver),
            r.draft.body is None,
    {
        ManagedIssueDraftBuilder { manager: self.manager.clone(), draft: issue().draft() }
    }
}

impl<Driver: ManagedIssueProvider, I> ManagedIssueBuilder<Driver, MissingIssueRepo, I> {
    pub fn repo(self, repo: Repo) -> (r: ManagedIssueBuilder<Driver, ProvidedIssueRepo, I>)
        ensures
            r.manager == self.manager,
            r.issue.repo.repo@ == repo@,
            r.issue.id == self.issue.id,
    {
        ManagedIssueBuilder { manager: self.manager, issue: self.issue.repo(repo) }
    }
}

impl<Driver: ManagedIssueProvider, R> ManagedIssueBuilder<Driver, R, MissingIssueId> {
    pub fn id(self, id: &str) -> (r: ManagedIssueBuilder<Driver, R, ProvidedIssueId>)
        ensures
            r.manager == self.manager,
            r.issue.id.id@ == id@,
            r.issue.repo == self.issue.repo,
    {
        ManagedIssueBuilder { manager: self.manager, issue: self.issue.id(id) }
    }
}

impl<Driver: ManagedIssueProvider> ManagedIssueBuilder<Driver, ProvidedIssueRepo, ProvidedIssueId> {
    pub fn build(self) -> (r: ManagedIssue<Driver>)
        ensures
            r.manager == self.manager,
            r.issue@ == (IssueView { repo: self.issue.repo.repo@, id: self.issue.id.id@ }),
    {
        self.get()
    }

    pub fn get(self) -> (r: ManagedIssue<Driver>)
        ensures
            r.manager == self.manager,
            r.issue@ == (IssueView { repo: self.issue.repo.repo@, id: self.issue.id.id@ }),
    {
        ManagedIssue { manager: self.manager, issue: self.issue.build() }
    }
}

/// A issue draft with its manager.
pub struct ManagedIssueDraftBuilder<Driver, RepoState, TagState> {
    pub manager: VcsManager<Driver>,
    pub draft: IssueDraftBuilder<RepoState, TagState>,
}

impl<Driver: ManagedIssueProvider, T> ManagedIssueDraftBuilder<Driver, MissingIssueRepo, T> {
    pub fn repo(self, repo: Repo) -> (r: ManagedIssueDraftBuilder<Driver, ProvidedIssueRepo, T>)
        ensures
            r.manager == self.manager,
            r.draft.repo.repo@ == repo@,
            r.draft.title == self.draft.title,
            r.draft.body == self.draft.body,
    {
        ManagedIssueDraftBuilder { manager: self.manager, draft: self.draft.repo(repo) }
    }
}

impl<Driver: ManagedIssueProvider, R> ManagedIssueDraftBuilder<Driver, R, MissingIssueTitle> {
    pub fn title(self, title: &str) -> (r: ManagedIssueDraftBuilder<Driver, R, ProvidedIssueTitle>)
        ensures
            r.manager == self.manager,
            r.draft.title.title@ == title@,
            r.draft.repo == self.draft.repo,
            r.draft.body == self.draft.body,
    {
        ManagedIssueDraftBuilder { manager: self.manager, draft: self.draft.title(title) }
    }
}

impl<Driver: ManagedIssueProvider, R, T> ManagedIssueDraftBuilder<Driver, R, T> {
    pub fn body(self, body: &str) -> (r: Self)
        ensures
            r.manager == self.manager,
            opt_str_view(r.draft.body) == Some(body@),
            r.draft.repo == self.draft.repo,
            r.draft.title == self.draft.title,
    {
        ManagedIssueDraftBuilder { manager: self.manager, draft: self.draft.body(body) }
    }
}

impl<Driver: ManagedIssueProvider> ManagedIssueDraftBuilder<Driver, ProvidedIssueRepo, ProvidedIssueTitle> {
    /// The driver's request that creates the drafted issue.
    pub fn create(self) -> (r: Request)
        ensures
            exists|d: IssueDraft|
                d@ == (IssueDraftView {
                    repo: self.draft.repo.repo@,
                    title: self.draft.title.title@,
                    body: opt_str_view(self.draft.body),
                }) && call_ensures(Driver::issue_create_request, (&self.manager.driver, &d), r),
    {
        self.manager.driver.issue_create_request(&self.draft.get())
    }
}

/// A issue with its manager.
pub struct ManagedIssue<Driver> {
    pub manager: VcsManager<Driver>,
    pub issue: Issue,
}

impl<Driver: ManagedIssueProvider> ManagedIssue<Driver> {
    /// The driver's URL of the issue.
    pub fn url(&self) -> (r: RequestUrl)
        ensures
            call_ensures(Driver::issue_url, (&self.manager.driver, &self.issue), r),
    {
        self.manager.driver.issue_url(&self.issue)
    }

    pub fn issue(&self) -> (r: &Issue)
        ensures
            r@ == self.issue@,
    {
        &self.issue
    }

    pub fn repo(&self) -> (r: &Repo)
        ensures
            r@ == self.issue@.repo,
    {
        self.issue.repo()
    }

    /// The driver's request that applies `patch`.
    pub fn update(&self, patch: &IssuePatch) -> (r: Request)
        ensures
            call_ensures(Driver::issue_update_request, (&self.manager.driver, patch), r),
    {
        self.manager.driver.issue_update_request(patch)
    }

    /// The driver's request that deletes the issue, if the driver can.
    pub fn delete(&self) -> (r: CognitionResult<Request>)
        ensures
            call_ensures(Driver::issue_delete_request, (&self.manager.driver, &self.issue), r),
    {
        self.manager.driver.issue_delete_request(&self.issue)
    }
}

/// The collection of a provider's issues.
pub struct ManagedIssueCollection<Driver> {
    pub manager: VcsManager<Driver>,
}

impl<Driver: ManagedIssueProvider> ManagedIssueCollection<Driver> {
    /// The driver's URL of a listing.
    pub fn list(&self, query: &IssueListQuery) -> (r: RequestUrl)
        ensures
            call_ensures(Driver::issue_list_url, (&self.manager.driver, query), r),
    {
        self.manager.driver.issue_list_url(query)
    }
}

/// The issues of one repository, on a page or not.
pub struct ManagedRepoIssues<Driver> {
    pub manager: VcsManager<Driver>,
    pub repo: Repo,
    pub page: Option<PageRequest>,
}

impl<Driver: ManagedIssueProvider> ManagedRepoIssues<Driver> {
    /// The listing query of these issues.
    pub fn query(&self) -> (r: IssueListQuery)
        ensures
            r@ == (IssueListQueryView { repo: self.repo@, page: page_request_view(self.page) }),
    {
        IssueQueryBuilder.list(self.repo.clone(), clone_page_request(&self.page))
    }

    /// The driver's URL of `query()`.
    pub fn url(&self) -> (r: RequestUrl)
        ensures
            exists|q: IssueListQuery|
                q@ == (IssueListQueryView { repo: self.repo@, page: page_request_view(self.page) })
                && call_ensures(Driver::issue_list_url, (&self.manager.driver, &q), r),
    {
        let query = self.query();
        self.manager.driver.issue_list_url(&query)
    }

    /// Starts giving a page, with no limit or cursor yet.
    pub fn pagination(self) -> (r: ManagedRepoIssuesPagination<Driver>)
        ensures
            r.manager == self.manager,
            r.repo == self.repo,
            r.page@ == (PageRequestView { limit: None, cursor: None }),
    {
        ManagedRepoIssuesPagination {
            manager: self.manager,
            repo: self.repo,
            page: PageRequestBuilder::default(),
        }
    }

    pub fn repo(&self) -> (r: &Repo)
        ensures
            r@ == self.repo@,
    {
        &self.repo
    }
}

/// A page of a repository's issues being given.
pub struct ManagedRepoIssuesPagination<Driver> {
    pub manager: VcsManager<Driver>,
    pub repo: Repo,
    pub page: PageRequestBuilder,
}

impl<Driver: ManagedIssueProvider> ManagedRepoIssuesPagination<Driver> {
    pub fn limit(self, limit: u16) -> (r: Self)
        ensures
            r.manager == self.manager,
            r.repo == self.repo,
            r.page@ == (PageRequestView { limit: Some(limit), ..self.page@ }),
    {
        ManagedRepoIssuesPagination { page: self.page.limit(limit), ..self }
    }

    pub fn cursor(self, cursor: &str) -> (r: Self)
        ensures
            r.manager == self.manager,
            r.repo == self.repo,
            r.page@ == (PageRequestView { cursor: Some(cursor@), ..self.page@ }),
    {
        ManagedRepoIssuesPagination { page: self.page.cursor(cursor), ..self }
    }

    pub fn build(self) -> (r: ManagedRepoIssues<Driver>)
        ensures
            r.manager == self.manager,
            r.repo == self.repo,
            page_request_view(r.page) == Some(self.page@),
    {
        self.list()
    }

    pub fn get(self) -> (r: ManagedRepoIssues<Driver>)
        ensures
            r.manager == self.manager,
            r.repo == self.repo,
            page_request_view(r.page) == Some(self.page@),
    {
        self.list()
    }

    /// The issues of the repository on the page given.
    pub fn list(self) -> (r: ManagedRepoIssues<Driver>)
        ensures
            r.manager == self.manager,
            r.repo == self.repo,
            page_request_view(r.page) == Some(self.page@),
    {
        ManagedRepoIssues { manager: self.manager, repo: self.repo, page: Some(self.page.build()) }
    }

    /// The driver's URL of the listing on the page given.
    pub fn url(self) -> (r: RequestUrl)
        ensures
            exists|q: IssueListQuery|
                q@ == (IssueListQueryView { repo: self.repo@, page: Some(self.page@) })
                && call_ensures(Driver::issue_list_url, (&self.manager.driver, &q), r),
    {
        self.list().url()
    }
}

} // verus!
