//! Middleware: what happens to a request on its way to the transport. A pipeline
//! runs its stages in the order they were added, then sends.
use vstd::prelude::*;

use crate::http::{HeaderView, Request, RequestHeader, RequestView};

verus! {

broadcast use vstd::seq::group_seq_axioms;

/// Adds one header to every request.
#[derive(Debug, PartialEq, Eq)]
pub struct HeaderMiddleware {
    header: RequestHeader,
}

impl View for HeaderMiddleware {
    type V = HeaderView;

    closed spec fn view(&self) -> HeaderView {
        self.header@
    }
}

impl HeaderMiddleware {
    pub fn make(name: &str, value: &str) -> (r: Self)
        ensures
            r@ == (HeaderView { name: name@, value: value@ }),
    {
        HeaderMiddleware { header: RequestHeader::make(name, value) }
    }

    /// The request with the header added.
    pub fn handle(&self, request: Request) -> (r: Request)
        ensures
            r@ == (RequestView { headers: request@.headers.push(self@), ..request@ }),
    {
        request.with_header(self.header.clone())
    }
}

/// A stage of a pipeline: a header to add, or a middleware of the caller's.
pub enum PipelineStage<M> {
    Header(HeaderMiddleware),
    Custom(M),
}

pub enum StageView<M> {
    Header(HeaderView),
    Custom(M),
}

pub open spec fn stages_view<M>(v: Seq<PipelineStage<M>>) -> Seq<StageView<M>> {
    v.map_values(
        |s: PipelineStage<M>|
            match s {
                PipelineStage::Header(h) => StageView::Header(h@),
                PipelineStage::Custom(m) => StageView::Custom(m),
            },
    )
}

/// The transport is still to be given.
#[derive(Clone, Debug, PartialEq, Eq)]
pub struct MissingTransport;

/// The transport was given.
pub struct ProvidedTransport<T> {
    pub transport: T,
}

/// A pipeline being configured: its stages, in order, and the transport state.
pub struct TransportPipelineBuilder<TransportState, M> {
    pub middleware: Vec<PipelineStage<M>>,
    pub transport: TransportState,
}

impl<S, M> View for TransportPipelineBuilder<S, M> {
    type V = Seq<StageView<M>>;

    closed spec fn view(&self) -> Seq<StageView<M>> {
        stages_view(self.middleware@)
    }
}

/// The stages of a request's way to the transport, then the transport.
pub struct TransportPipeline<T, M> {
    pub middleware: Vec<PipelineStage<M>>,
    pub transport: T,
}

impl<T, M> View for TransportPipeline<T, M> {
    type V = Seq<StageView<M>>;

    closed spec fn view(&self) -> Seq<StageView<M>> {
        stages_view(self.middleware@)
    }
}

impl<T, M> TransportPipeline<T, M> {
    pub fn builder() -> (r: TransportPipelineBuilder<MissingTransport, M>)
        ensures
            r@.len() == 0,
    {
        let r = TransportPipelineBuilder { middleware: Vec::new(), transport: MissingTransport };
        assert(stages_view(r.middleware@) =~= Seq::<StageView<M>>::empty());
        r
    }

    /// The stages, in order.
    pub fn stages(&self) -> (r: &[PipelineStage<M>])
        ensures
            stages_view(r@) == self@,
    {
        self.middleware.as_slice()
    }
}

impl<S, M> TransportPipelineBuilder<S, M> {
    /// Adds a middleware of the caller's after the stages so far.
    pub fn with(self, middleware: M) -> (r: Self)
        ensures
            r@ == self@.push(StageView::Custom(middleware)),
            r.transport == self.transport,
    {
        let mut stages = self.middleware;
        let ghost before = stages@;
        stages.push(PipelineStage::Custom(middleware));
        assert(stages_view(stages@) =~= stages_view(before).push(StageView::Custom(middleware)));
        TransportPipelineBuilder { middleware: stages, transport: self.transport }
    }

    /// Adds a stage that adds the header `name: value`.
    pub fn header(self, name: &str, value: &str) -> (r: Self)
        ensures
            r@ == self@.push(StageView::Header(HeaderView { name: name@, value: value@ })),
            r.transport == self.transport,
    {
        let h = HeaderMiddleware::make(name, value);
        let mut stages = self.middleware;
        let ghost before = stages@;
        let ghost hv = h@;
        stages.push(PipelineStage::Header(h));
        assert(stages_view(stages@) =~= stages_view(before).push(StageView::Header(hv)));
        TransportPipelineBuilder { middleware: stages, transport: self.transport }
    }
}

impl<M> TransportPipelineBuilder<MissingTransport, M> {
    pub fn transport<T>(self, transport: T) -> (r: TransportPipelineBuilder<ProvidedTransport<T>, M>)
        ensures
            r@ == self@,
            r.transport.transport == transport,
    {
        TransportPipelineBuilder {
            middleware: self.middleware,
            transport: ProvidedTransport { transport },
        }
    }
}

impl<T, M> TransportPipelineBuilder<ProvidedTransport<T>, M> {
    pub fn build(self) -> (r: TransportPipeline<T, M>)
        ensures
            r@ == self@,
            r.transport == self.transport.transport,
    {
        TransportPipeline { middleware: self.middleware, transport: self.transport.transport }
    }
}

/// A pipeline with no stage and no transport yet.
pub fn middleware<M>() -> (r: TransportPipelineBuilder<MissingTransport, M>)
    ensures
        r@.len() == 0,
{
    TransportPipeline::<(), M>::builder()
}

} // verus!
