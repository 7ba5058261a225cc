//! The pipelines of a provider reached through a transport.
use vstd::prelude::*;

use crate::error::CognitionResult;
use crate::http::{
    get_request, get_view, headers_added, headers_view, outcome_with_headers, with_headers,
    Request, RequestHeader, RequestUrl, RequestView,
};
use crate::manager::ManagedPipelineProvider;
use crate::pipelines::queries::PipelineListQuery;
use crate::pipelines::{Pipeline, PipelineId, PipelineView};
use crate::repos::Repo;

verus! {

broadcast use vstd::seq::group_seq_axioms;

/// A provider's pipelines reached through a transport: the driver that knows
/// the provider's URLs, the transport, the mapper of responses, and headers added
/// to every request.
pub struct TransportBackedPipelines<Driver, Mapper, T> {
    pub driver: Driver,
    pub transport: T,
    pub mapper: Mapper,
    pub headers: Vec<RequestHeader>,
}

impl<Driver, Mapper, T> TransportBackedPipelines<Driver, Mapper, T> {
    pub fn make(driver: Driver, transport: T, mapper: Mapper) -> (r: Self)
        ensures
            r.driver == driver,
            r.transport == transport,
            r.mapper == mapper,
            r.headers@.len() == 0,
    {
        TransportBackedPipelines { driver, transport, mapper, headers: Vec::new() }
    }

    /// Adds `headers` to those added to every request.
    pub fn with_headers(self, headers: Vec<RequestHeader>) -> (r: Self)
        ensures
            headers_view(r.headers@) == headers_view(self.headers@) + headers_view(headers@),
            r.driver == self.driver,
            r.transport == self.transport,
            r.mapper == self.mapper,
    {
        let mut all = self.headers;
        let mut more = headers;
        let ghost a = all@;
        let ghost b = more@;
        all.append(&mut more);
        assert(headers_view(all@) =~= headers_view(a) + headers_view(b));
        TransportBackedPipelines { headers: all, ..self }
    }

    /// The request with the headers added, in order.
    pub fn apply_headers(&self, request: Request) -> (r: Request)
        ensures
            r@ == (RequestView {
                headers: request@.headers + headers_view(self.headers@),
                ..request@
            }),
    {
        with_headers(request, &self.headers)
    }
}

impl<Driver: ManagedPipelineProvider, Mapper, T> TransportBackedPipelines<Driver, Mapper, T> {
    /// What `get` sends: a `GET` of the driver's URL of the pipeline `id` of `repo`,
    /// with the headers; and the pipeline asked for, which the response is read as.
    pub fn get_request(&self, repo: Repo, id: PipelineId) -> (r: (Pipeline, Request))
        ensures
            r.0@ == (PipelineView { repo: repo@, id: id@ }),
            exists|u: RequestUrl|
                call_ensures(Driver::pipeline_url, (&self.driver, &r.0), u) && r.1@ == headers_added(
                    get_view(u@),
                    headers_view(self.headers@),
                ),
    {
        let pipeline = Pipeline::make(repo, id);
        let url = self.driver.pipeline_url(&pipeline);
        let request = self.apply_headers(get_request(&url));
        (pipeline, request)
    }

    /// What `list` sends: a `GET` of the driver's URL of the listing, with the headers.
    pub fn list_request(&self, query: &PipelineListQuery) -> (r: Request)
        ensures
            exists|u: RequestUrl|
                call_ensures(Driver::pipeline_list_url, (&self.driver, query), u) && r@
                    == headers_added(get_view(u@), headers_view(self.headers@)),
    {
        let url = self.driver.pipeline_list_url(query);
        self.apply_headers(get_request(&url))
    }

    /// What `rerun` sends: the driver's request that reruns the pipeline, with the
    /// headers; or the driver's error, which ends `rerun` before anything is sent.
    pub fn rerun_request(&self, pipeline: &Pipeline) -> (r: CognitionResult<Request>)
        ensures
            exists|q: CognitionResult<Request>|
                call_ensures(Driver::pipeline_rerun_request, (&self.driver, pipeline), q)
                    && outcome_with_headers(q, r, headers_view(self.headers@)),
    {
        let outcome = self.driver.pipeline_rerun_request(pipeline);
        let ghost built = outcome;
        let r = match outcome {
            Ok(q) => {
                let ghost sent = q@;
                let request = self.apply_headers(q);
                assert(request@ == headers_added(sent, headers_view(self.headers@)));
                Ok(request)
            },
            Err(e) => Err(e),
        };
        assert(outcome_with_headers(built, r, headers_view(self.headers@)));
        r
    }

    /// What `cancel` sends: the driver's request that cancels the pipeline, with the
    /// headers; or the driver's error, which ends `cancel` before anything is sent.
    pub fn cancel_request(&self, pipeline: &Pipeline) -> (r: CognitionResult<Request>)
        ensures
            exists|q: CognitionResult<Request>|
                call_ensures(Driver::pipeline_cancel_request, (&self.driver, pipeline), q)
                    && outcome_with_headers(q, r, headers_view(self.headers@)),
    {
        let outcome = self.driver.pipeline_cancel_request(pipeline);
        let ghost built = outcome;
        let r = match outcome {
            Ok(q) => {
                let ghost sent = q@;
                let request = self.apply_headers(q);
                assert(request@ == headers_added(sent, headers_view(self.headers@)));
                Ok(request)
            },
            Err(e) => Err(e),
        };
        assert(outcome_with_headers(built, r, headers_view(self.headers@)));
        r
    }
}

} // verus!
