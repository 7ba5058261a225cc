//! The releases of a provider reached through a transport.
use vstd::prelude::*;

use crate::http::{
    get_request, get_view, headers_added, headers_view, with_headers, Request, RequestHeader,
    RequestUrl, RequestView,
};
use crate::manager::ManagedReleaseProvider;
use crate::releases::queries::ReleaseListQuery;
use crate::releases::{Release, ReleaseDraft, ReleaseId, ReleasePatch, ReleaseView};
use crate::repos::Repo;

verus! {

broadcast use vstd::seq::group_seq_axioms;

/// A provider's releases reached through a transport: the driver that knows
/// the provider's URLs, the transport, the mapper of responses, and headers added
/// to every request.
pub struct TransportBackedReleases<Driver, Mapper, T> {
    pub driver: Driver,
    pub transport: T,
    pub mapper: Mapper,
    pub headers: Vec<RequestHeader>,
}

impl<Driver, Mapper, T> TransportBackedReleases<Driver, Mapper, T> {
    pub fn make(driver: Driver, transport: T, mapper: Mapper) -> (r: Self)
        ensures
            r.driver == driver,
            r.transport == transport,
            r.mapper == mapper,
            r.headers@.len() == 0,
    {
        TransportBackedReleases { driver, transport, mapper, headers: Vec::new() }
    }

    /// Adds `headers` to those added to every request.
    pub fn with_headers(self, headers: Vec<RequestHeader>) -> (r: Self)
        ensures
            headers_view(r.headers@) == headers_view(self.headers@) + headers_view(headers@),
            r.driver == self.driver,
            r.transport == self.transport,
            r.mapper == self.mapper,
    {
        let mut all = self.headers;
        let mut more = headers;
        let ghost a = all@;
        let ghost b = more@;
        all.append(&mut more);
        assert(headers_view(all@) =~= headers_view(a) + headers_view(b));
        TransportBackedReleases { headers: all, ..self }
    }

    /// The request with the headers added, in order.
    pub fn apply_headers(&self, request: Request) -> (r: Request)
        ensures
            r@ == (RequestView {
                headers: request@.headers + headers_view(self.headers@),
                ..request@
            }),
    {
        with_headers(request, &self.headers)
    }
}

impl<Driver: ManagedReleaseProvider, Mapper, T> TransportBackedReleases<Driver, Mapper, T> {
    /// What `get` sends: a `GET` of the driver's URL of the release `id` of `repo`,
    /// with the headers; and the release asked for, which the response is read as.
    pub fn get_request(&self, repo: Repo, id: ReleaseId) -> (r: (Release, Request))
        ensures
            r.0@ == (ReleaseView { repo: repo@, id: id@ }),
            exists|u: RequestUrl|
                call_ensures(Driver::release_url, (&self.driver, &r.0), u) && r.1@ == headers_added(
                    get_view(u@),
                    headers_view(self.headers@),
                ),
    {
        let release = Release::make(repo, id);
        let url = self.driver.release_url(&release);
        let request = self.apply_headers(get_request(&url));
        (release, request)
    }

    /// What `list` sends: a `GET` of the driver's URL of the listing, with the headers.
    pub fn list_request(&self, query: &ReleaseListQuery) -> (r: Request)
        ensures
            exists|u: RequestUrl|
                call_ensures(Driver::release_list_url, (&self.driver, query), u) && r@
                    == headers_added(get_view(u@), headers_view(self.headers@)),
    {
        let url = self.driver.release_list_url(query);
        self.apply_headers(get_request(&url))
    }

    /// What `create` sends: the driver's request for the draft, with the headers; and
    /// the release asked for (the draft's repository and tag).
    pub fn create_request(&self, draft: &ReleaseDraft) -> (r: (Release, Request))
        ensures
            r.0@ == (ReleaseView { repo: draft@.repo, id: draft@.tag }),
            exists|q: Request|
                call_ensures(Driver::release_create_request, (&self.driver, draft), q) && r.1@
                    == headers_added(q@, headers_view(self.headers@)),
    {
        let release = Release::make(draft.repo().clone(), ReleaseId::make(draft.tag()));
        let q = self.driver.release_create_request(draft);
        let ghost sent = q@;
        let request = self.apply_headers(q);
        assert(request@ == headers_added(sent, headers_view(self.headers@)));
        (release, request)
    }

    /// What `update` sends: the driver's request for the patch, with the headers.
    pub fn update_request(&self, patch: &ReleasePatch) -> (r: Request)
        ensures
            exists|q: Request|
                call_ensures(Driver::release_update_request, (&self.driver, patch), q) && r@
                    == headers_added(q@, headers_view(self.headers@)),
    {
        let q = self.driver.release_update_request(patch);
        let ghost sent = q@;
        let request = self.apply_headers(q);
        assert(request@ == headers_added(sent, headers_view(self.headers@)));
        request
    }

    /// What `delete` sends: the driver's request that deletes the release, with the
    /// headers.
    pub fn delete_request(&self, release: &Release) -> (r: Request)
        ensures
            exists|q: Request|
                call_ensures(Driver::release_delete_request, (&self.driver, release), q) && r@
                    == headers_added(q@, headers_view(self.headers@)),
    {
        let q = self.driver.release_delete_request(release);
        let ghost sent = q@;
        let request = self.apply_headers(q);
        assert(request@ == headers_added(sent, headers_view(self.headers@)));
        request
    }
}

} // verus!
