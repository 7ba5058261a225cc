//! Managed code_reviews: named piece by piece, then asked for URLs and requests.
use vstd::prelude::*;

use super::{ManagedCodeReviewProvider, VcsManager};
use crate::http::{Request, RequestUrl};
use crate::pagination::{clone_page_request, page_request_view, PageRequest, PageRequestBuilder, PageRequestView};
use crate::code_reviews::{
    CodeReviewDraft, CodeReviewDraftView, CodeReviewDraftBuilder, CodeReviewPatch, MissingCodeReviewDraftRepo, MissingCodeReviewTitle,
    ProvidedCodeReviewDraftRepo, ProvidedCodeReviewTitle,
};
use crate::error::CognitionResult;
use crate::code_reviews::queries::{CodeReviewListQuery, CodeReviewListQueryView, CodeReviewQueryBuilder};
use crate::code_reviews::{
    code_review, CodeReview, CodeReviewBuilder, CodeReviewView, MissingCodeReviewId, MissingCodeReviewRepo, ProvidedCodeReviewId,
    ProvidedCodeReviewRepo,
};
use crate::repos::resources::opt_str_view;
use crate::repos::{Repo, RepoView};

verus! {

/// A code_review named piece by piece, with its manager.
pub struct ManagedCodeReviewBuilder<Driver, RepoState, CodeReviewIdState> {
    pub manager: VcsManager<Driver>,
    pub code_review: CodeReviewBuilder<RepoState, CodeReviewIdState>,
}

impl<Driver: ManagedCodeReviewProvider> ManagedCodeReviewBuilder<Driver, MissingCodeReviewRepo, MissingCodeReviewId> {
    /// The collection of code_reviews, with a copy of the manager.
    pub fn collection(&self) -> (r: ManagedCodeReviewCollection<Driver>)
        ensures
            cloned(self.manager.driver, r.manager.driver),
    {
        ManagedCodeReviewCollection { manager: self.manager.clone() }
    }

    pub fn query(&self) -> (r: CodeReviewQueryBuilder) {
        CodeReviewQueryBuilder
    }

    /// A code_review draft with nothing given yet, with a copy of the manager.
    pub fn draft(&self) -> (r: ManagedCodeReviewDraftBuilder<Driver, MissingCodeReviewDraftRepo, MissingCodeReviewTitle>)
        ensures
            cloned(self.manager.driver, r.manager.driver),
            r.draft.source is None,
            r.draft.target is None,
            r.draft.body is None,
    {
        ManagedCodeReviewDraftBuilder { manager: self.manager.clone(), draft: code_review().draft() }
    }
}

impl<Driver: ManagedCodeReviewProvider, I> ManagedCodeReviewBuilder<Driver, MissingCodeReviewRepo, I> {
    pub fn repo(self, repo: Repo) -> (r: ManagedCodeReviewBuilder<Driver, ProvidedCodeReviewRepo, I>)
        ensures
            r.manager == self.manager,
            r.code_review.repo.repo@ == repo@,
            r.code_review.id == self.code_review.id,
    {
        ManagedCodeReviewBuilder { manager: self.manager, code_review: self.code_review.repo(repo) }
    }
}

impl<Driver: ManagedCodeReviewProvider, R> ManagedCodeReviewBuilder<Driver, R, MissingCodeReviewId> {
    pub fn id(self, id: &str) -> (r: ManagedCodeReviewBuilder<Driver, R, ProvidedCodeReviewId>)
        ensures
            r.manager == self.manager,
            r.code_review.id.id@ == id@,
            r.code_review.repo == self.code_review.repo,
    {
        ManagedCodeReviewBuilder { manager: self.manager, code_review: self.code_review.id(id) }
    }
}

impl<Driver: ManagedCodeReviewProvider> ManagedCodeReviewBuilder<Driver, ProvidedCodeReviewRepo, ProvidedCodeReviewId> {
    pub fn build(self) -> (r: ManagedCodeReview<Driver>)
        ensures
            r.manager == self.manager,
            r.code_review@ == (CodeReviewView { repo: self.code_review.repo.repo@, id: self.code_review.id.id@ }),
    {
        self.get()
    }

    pub fn get(self) -> (r: ManagedCodeReview<Driver>)
        ensures
            r.manager == self.manager,
            r.code_review@ == (CodeReviewView { repo: self.code_review.repo.repo@, id: self.code_review.id.id@ }),
    {
        ManagedCodeReview { manager: self.manager, code_review: self.code_review.build() }
    }
}

/// A code_review draft with its manager.
pub struct ManagedCodeReviewDraftBuilder<Driver, RepoState, TagState> {
    pub manager: VcsManager<Driver>,
    pub draft: CodeReviewDraftBuilder<RepoState, TagState>,
}

impl<Driver: ManagedCodeReviewProvider, T> ManagedCodeReviewDraftBuilder<Driver, MissingCodeReviewDraftRepo, T> {
    pub fn repo(self, repo: Repo) -> (r: ManagedCodeReviewDraftBuilder<Driver, ProvidedCodeReviewDraftRepo, T>)
        ensures
            r.manager == self.manager,
            r.draft.repo.repo@ == repo@,
            r.draft.title == self.draft.title,
            r.draft.source == self.draft.source,
            r.draft.target == self.draft.target,
            r.draft.body == self.draft.body,
    {
        ManagedCodeReviewDraftBuilder { manager: self.manager, draft: self.draft.repo(repo) }
    }
}

impl<Driver: ManagedCodeReviewProvider, R> ManagedCodeReviewDraftBuilder<Driver, R, MissingCodeReviewTitle> {
    pub fn title(self, title: &str) -> (r: ManagedCodeReviewDraftBuilder<Driver, R, ProvidedCodeReviewTitle>)
        ensures
            r.manager == self.manager,
            r.draft.title.title@ == title@,
            r.draft.repo == self.draft.repo,
            r.draft.source == self.draft.source,
            r.draft.target == self.draft.target,
            r.draft.body == self.draft.body,
    {
        ManagedCodeReviewDraftBuilder { manager: self.manager, draft: self.draft.title(title) }
    }
}

impl<Driver: ManagedCodeReviewProvider, R, T> ManagedCodeReviewDraftBuilder<Driver, R, T> {
    /// The branch to merge.
    pub fn source(self, source: &str) -> (r: Self)
        ensures
            r.manager == self.manager,
            opt_str_view(r.draft.source) == Some(source@),
            r.draft.repo == self.draft.repo,
            r.draft.title == self.draft.title,
            r.draft.target == self.draft.target,
            r.draft.body == self.draft.body,
    {
        ManagedCodeReviewDraftBuilder { manager: self.manager, draft: self.draft.source(source) }
    }

    /// The branch to merge into.
    pub fn target(self, target: &str) -> (r: Self)
        ensures
            r.manager == self.manager,
            opt_str_view(r.draft.target) == Some(target@),
            r.draft.repo == self.draft.repo,
            r.draft.title == self.draft.title,
            r.draft.source == self.draft.source,
            r.draft.body == self.draft.body,
    {
        ManagedCodeReviewDraftBuilder { manager: self.manager, draft: self.draft.target(target) }
    }

    pub fn body(self, body: &str) -> (r: Self)
        ensures
            r.manager == self.manager,
            opt_str_view(r.draft.body) == Some(body@),
            r.draft.repo == self.draft.repo,
            r.draft.title == self.draft.title,
            r.draft.source == self.draft.source,
            r.draft.target == self.draft.target,
    {
        ManagedCodeReviewDraftBuilder { manager: self.manager, draft: self.draft.body(body) }
    }
}

impl<Driver: ManagedCodeReviewProvider> ManagedCodeReviewDraftBuilder<Driver, ProvidedCodeReviewDraftRepo, ProvidedCodeReviewTitle> {
    /// The driver's request that creates the drafted code_review.
    pub fn create(self) -> (r: Request)
        ensures
            exists|d: CodeReviewDraft|
                d@ == (CodeReviewDraftView {
                    repo: self.draft.repo.repo@,
                    title: self.draft.title.title@,
                    source: opt_str_view(self.draft.source),
                    target: opt_str_view(self.draft.target),
                    body: opt_str_view(self.draft.body),
                }) && call_ensures(Driver::code_review_create_request, (&self.manager.driver, &d), r),
    {
        self.manager.driver.code_review_create_request(&self.draft.get())
    }
}

/// A code_review with its manager.
pub struct ManagedCodeReview<Driver> {
    pub manager: VcsManager<Driver>,
    pub code_review: CodeReview,
}

impl<Driver: ManagedCodeReviewProvider> ManagedCodeReview<Driver> {
    /// The driver's URL of the code_review.
    pub fn url(&self) -> (r: RequestUrl)
        ensures
            call_ensures(Driver::code_review_url, (&self.manager.driver, &self.code_review), r),
    {
        self.manager.driver.code_review_url(&self.code_review)
    }

    pub fn code_review(&self) -> (r: &CodeReview)
        ensures
            r@ == self.code_review@,
    {
        &self.code_review
    }

    pub fn repo(&self) -> (r: &Repo)
        ensures
            r@ == self.code_review@.repo,
    {
        self.code_review.repo()
    }

    /// The driver's request that applies `patch`.
    pub fn update(&self, patch: &CodeReviewPatch) -> (r: Request)
        ensures
            call_ensures(Driver::code_review_update_request, (&self.manager.driver, patch), r),
    {
        self.manager.driver.code_review_update_request(patch)
    }

    /// The driver's request that closes the code review.
    pub fn close(&self) -> (r: Request)
        ensures
            call_ensures(Driver::code_review_close_request, (&self.manager.driver, &self.code_review), r),
    {
        self.manager.driver.code_review_close_request(&self.code_review)
    }

    /// The driver's request that deletes the code review, if the driver can.
    pub fn delete(&self) -> (r: CognitionResult<Request>)
        ensures
            call_ensures(Driver::code_review_delete_request, (&self.manager.driver, &self.code_review), r),
    {
        self.manager.driver.code_review_delete_request(&self.code_review)
    }
}

/// The collection of a provider's code_reviews.
pub struct ManagedCodeReviewCollection<Driver> {
    pub manager: VcsManager<Driver>,
}

impl<Driver: ManagedCodeReviewProvider> ManagedCodeReviewCollection<Driver> {
    /// The driver's URL of a listing.
    pub fn list(&self, query: &CodeReviewListQuery) -> (r: RequestUrl)
        ensures
            call_ensures(Driver::code_review_list_url, (&self.manager.driver, query), r),
    {
        self.manager.driver.code_review_list_url(query)
    }
}

/// The code_reviews of one repository, on a page or not.
pub struct ManagedRepoCodeReviews<Driver> {
    pub manager: VcsManager<Driver>,
    pub repo: Repo,
    pub page: Option<PageRequest>,
}

impl<Driver: ManagedCodeReviewProvider> ManagedRepoCodeReviews<Driver> {
    /// The listing query of these code_reviews.
    pub fn query(&self) -> (r: CodeReviewListQuery)
        ensures
            r@ == (CodeReviewListQueryView { repo: self.repo@, page: page_request_view(self.page) }),
    {
        CodeReviewQueryBuilder.list(self.repo.clone(), clone_page_request(&self.page))
    }

    /// The driver's URL of `query()`.
    pub fn url(&self) -> (r: RequestUrl)
        ensures
            exists|q: CodeReviewListQuery|
                q@ == (CodeReviewListQueryView { repo: self.repo@, page: page_request_view(self.page) })
                && call_ensures(Driver::code_review_list_url, (&self.manager.driver, &q), r),
    {
        let query = self.query();
        self.manager.driver.code_review_list_url(&query)
    }

    /// Starts giving a page, with no limit or cursor yet.
    pub fn pagination(self) -> (r: ManagedRepoCodeReviewsPagination<Driver>)
        ensures
            r.manager == self.manager,
            r.repo == self.repo,
            r.page@ == (PageRequestView { limit: None, cursor: None }),
    {
        ManagedRepoCodeReviewsPagination {
            manager: self.manager,
            repo: self.repo,
            page: PageRequestBuilder::default(),
        }
    }

    pub fn repo(&self) -> (r: &Repo)
        ensures
            r@ == self.repo@,
    {
        &self.repo
    }
}

/// A page of a repository's code_reviews being given.
pub struct ManagedRepoCodeReviewsPagination<Driver> {
    pub manager: VcsManager<Driver>,
    pub repo: Repo,
    pub page: PageRequestBuilder,
}

impl<Driver: ManagedCodeReviewProvider> ManagedRepoCodeReviewsPagination<Driver> {
    pub fn limit(self, limit: u16) -> (r: Self)
        ensures
            r.manager == self.manager,
            r.repo == self.repo,
            r.page@ == (PageRequestView { limit: Some(limit), ..self.page@ }),
    {
        ManagedRepoCodeReviewsPagination { page: self.page.limit(limit), ..self }
    }

    pub fn cursor(self, cursor: &str) -> (r: Self)
        ensures
            r.manager == self.manager,
            r.repo == self.repo,
            r.page@ == (PageRequestView { cursor: Some(cursor@), ..self.page@ }),
    {
        ManagedRepoCodeReviewsPagination { page: self.page.cursor(cursor), ..self }
    }

    pub fn build(self) -> (r: ManagedRepoCodeReviews<Driver>)
        ensures
            r.manager == self.manager,
            r.repo == self.repo,
            page_request_view(r.page) == Some(self.page@),
    {
        self.list()
    }

    pub fn get(self) -> (r: ManagedRepoCodeReviews<Driver>)
        ensures
            r.manager == self.manager,
            r.repo == self.repo,
            page_request_view(r.page) == Some(self.page@),
    {
        self.list()
    }

    /// The code_reviews of the repository on the page given.
    pub fn list(self) -> (r: ManagedRepoCodeReviews<Driver>)
        ensures
            r.manager == self.manager,
            r.repo == self.repo,
            page_request_view(r.page) == Some(self.page@),
    {
        ManagedRepoCodeReviews { manager: self.manager, repo: self.repo, page: Some(self.page.build()) }
    }

    /// The driver's URL of the listing on the page given.
    pub fn url(self) -> (r: RequestUrl)
        ensures
            exists|q: CodeReviewListQuery|
                q@ == (CodeReviewListQueryView { repo: self.repo@, page: Some(self.page@) })
                && call_ensures(Driver::code_review_list_url, (&self.manager.driver, &q), r),
    {
        self.list().url()
    }
}

} // verus!
