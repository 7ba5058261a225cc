//! The repositories of a provider reached through a transport.
use vstd::prelude::*;

use crate::error::CognitionResult;
use crate::http::{
    get_request, get_view, headers_added, headers_view, outcome_with_headers, with_headers,
    Request, RequestHeader, RequestUrl, RequestView,
};
use crate::manager::ManagedProvider;
use crate::pagination::PageRequest;
use crate::repos::resources::{BranchDraft, RepositoryDraft, RepositoryPatch};
use crate::repos::Repo;
use crate::repositories::{RepositoryListQuery, RepositorySearchQuery};

verus! {

broadcast use vstd::seq::group_seq_axioms;

/// A provider's repositories reached through a transport: the driver that knows
/// the provider's URLs, the transport, the mapper of responses, and headers added
/// to every request.
pub struct TransportBackedRepos<Driver, Mapper, T> {
    pub driver: Driver,
    pub transport: T,
    pub mapper: Mapper,
    pub headers: Vec<RequestHeader>,
}

impl<Driver, Mapper, T> TransportBackedRepos<Driver, Mapper, T> {
    pub fn make(driver: Driver, transport: T, mapper: Mapper) -> (r: Self)
        ensures
            r.driver == driver,
            r.transport == transport,
            r.mapper == mapper,
            r.headers@.len() == 0,
    {
        TransportBackedRepos { driver, transport, mapper, headers: Vec::new() }
    }

    /// Adds `headers` to those added to every request.
    pub fn with_headers(self, headers: Vec<RequestHeader>) -> (r: Self)
        ensures
            headers_view(r.headers@) == headers_view(self.headers@) + headers_view(headers@),
            r.driver == self.driver,
            r.transport == self.transport,
            r.mapper == self.mapper,
    {
        let mut all = self.headers;
        let mut more = headers;
        let ghost a = all@;
        let ghost b = more@;
        all.append(&mut more);
        assert(headers_view(all@) =~= headers_view(a) + headers_view(b));
        TransportBackedRepos { headers: all, ..self }
    }

    /// The request with the headers added, in order.
    pub fn apply_headers(&self, request: Request) -> (r: Request)
        ensures
            r@ == (RequestView {
                headers: request@.headers + headers_view(self.headers@),
                ..request@
            }),
    {
        with_headers(request, &self.headers)
    }
}

impl<Driver: ManagedProvider, Mapper, T> TransportBackedRepos<Driver, Mapper, T> {
    /// What `get` sends: a `GET` of the driver's URL of `repo`, with the headers.
    pub fn get_request(&self, repo: &Repo) -> (r: Request)
        ensures
            exists|u: RequestUrl|
                call_ensures(Driver::repo_url, (&self.driver, repo), u) && r@
                    == headers_added(get_view(u@), headers_view(self.headers@)),
    {
        let url = self.driver.repo_url(repo);
        self.apply_headers(get_request(&url))
    }

    /// What `list` sends: a `GET` of the driver's URL of the listing, with the headers.
    pub fn list_request(&self, query: &RepositoryListQuery) -> (r: Request)
        ensures
            exists|u: RequestUrl|
                call_ensures(Driver::repo_list_url, (&self.driver, query), u) && r@
                    == headers_added(get_view(u@), headers_view(self.headers@)),
    {
        let url = self.driver.repo_list_url(query);
        self.apply_headers(get_request(&url))
    }

    /// What `search` sends: a `GET` of the driver's URL of the search, with the headers.
    pub fn search_request(&self, query: &RepositorySearchQuery) -> (r: Request)
        ensures
            exists|u: RequestUrl|
                call_ensures(Driver::repo_search_url, (&self.driver, query), u) && r@
                    == headers_added(get_view(u@), headers_view(self.headers@)),
    {
        let url = self.driver.repo_search_url(query);
        self.apply_headers(get_request(&url))
    }

    /// What `create` sends: the driver's request for the draft, with the headers.
    pub fn create_request(&self, draft: &RepositoryDraft) -> (r: Request)
        ensures
            exists|q: Request|
                call_ensures(Driver::repo_create_request, (&self.driver, draft), q) && r@
                    == headers_added(q@, headers_view(self.headers@)),
    {
        let q = self.driver.repo_create_request(draft);
        let ghost sent = q@;
        let request = self.apply_headers(q);
        assert(request@ == headers_added(sent, headers_view(self.headers@)));
        request
    }

    /// What `update` sends: the driver's request for the patch, with the headers.
    pub fn update_request(&self, patch: &RepositoryPatch) -> (r: Request)
        ensures
            exists|q: Request|
                call_ensures(Driver::repo_update_request, (&self.driver, patch), q) && r@
                    == headers_added(q@, headers_view(self.headers@)),
    {
        let q = self.driver.repo_update_request(patch);
        let ghost sent = q@;
        let request = self.apply_headers(q);
        assert(request@ == headers_added(sent, headers_view(self.headers@)));
        request
    }

    /// What `delete` sends: the driver's request that deletes `repo`, with the headers.
    pub fn delete_request(&self, repo: &Repo) -> (r: Request)
        ensures
            exists|q: Request|
                call_ensures(Driver::repo_delete_request, (&self.driver, repo), q) && r@
                    == headers_added(q@, headers_view(self.headers@)),
    {
        let q = self.driver.repo_delete_request(repo);
        let ghost sent = q@;
        let request = self.apply_headers(q);
        assert(request@ == headers_added(sent, headers_view(self.headers@)));
        request
    }

    /// What `branches` sends: a `GET` of the driver's URL of the first page of the
    /// branches of `repo`, with the headers.
    pub fn branches_request(&self, repo: &Repo) -> (r: Request)
        ensures
            exists|u: RequestUrl|
                call_ensures(Driver::repo_branches_url, (&self.driver, repo, None::<&PageRequest>), u)
                    && r@ == headers_added(get_view(u@), headers_view(self.headers@)),
    {
        let url = self.driver.repo_branches_url(repo, None);
        self.apply_headers(get_request(&url))
    }

    /// What `create_branch` sends: the driver's request for the draft, with the
    /// headers; or the driver's error, which ends `create_branch` before anything is sent.
    pub fn create_branch_request(&self, draft: &BranchDraft) -> (r: CognitionResult<Request>)
        ensures
            exists|q: CognitionResult<Request>|
                call_ensures(Driver::repo_branch_create_request, (&self.driver, draft), q)
                    && outcome_with_headers(q, r, headers_view(self.headers@)),
    {
        let outcome = self.driver.repo_branch_create_request(draft);
        let ghost built = outcome;
        let r = match outcome {
            Ok(q) => {
                let ghost sent = q@;
                let request = self.apply_headers(q);
                assert(request@ == headers_added(sent, headers_view(self.headers@)));
                Ok(request)
            },
            Err(e) => Err(e),
        };
        assert(outcome_with_headers(built, r, headers_view(self.headers@)));
        r
    }

    /// What `delete_branch` sends: the driver's request that deletes the branch
    /// `name` of `repo`, with the headers; or the driver's error, which ends
    /// `delete_branch` before anything is sent.
    pub fn delete_branch_request(&self, repo: &Repo, name: &str) -> (r: CognitionResult<Request>)
        ensures
            exists|q: CognitionResult<Request>|
                call_ensures(Driver::repo_branch_delete_request, (&self.driver, repo, name), q)
                    && outcome_with_headers(q, r, headers_view(self.headers@)),
    {
        let outcome = self.driver.repo_branch_delete_request(repo, name);
        let ghost built = outcome;
        let r = match outcome {
            Ok(q) => {
                let ghost sent = q@;
                let request = self.apply_headers(q);
                assert(request@ == headers_added(sent, headers_view(self.headers@)));
                Ok(request)
            },
            Err(e) => Err(e),
        };
        assert(outcome_with_headers(built, r, headers_view(self.headers@)));
        r
    }

    /// What `commits` sends: a `GET` of the driver's URL of the first page of the
    /// commits of `repo`, with the headers.
    pub fn commits_request(&self, repo: &Repo) -> (r: Request)
        ensures
            exists|u: RequestUrl|
                call_ensures(Driver::repo_commits_url, (&self.driver, repo, None::<&PageRequest>), u)
                    && r@ == headers_added(get_view(u@), headers_view(self.headers@)),
    {
        let url = self.driver.repo_commits_url(repo, None);
        self.apply_headers(get_request(&url))
    }
}

} // verus!
