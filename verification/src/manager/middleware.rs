//! A client of the driver over a composed transport: a middleware pipeline, and
//! around it, as they are switched on, rate-limit observation, retrying and
//! telemetry.
use vstd::prelude::*;

use super::send::{
    custom_indices, drive, law_every_retried_attempt_is_sent_and_observed,
    law_pipeline_runs_each_middleware_once_then_sends_once, ActionView, ComposedSend, SendPhase,
    SendView,
};
use super::VcsManager;
use crate::http::{HeaderView, Request, RequestView, ResponseView};
use crate::middleware::{
    middleware, ProvidedTransport, StageView, TransportPipeline, TransportPipelineBuilder,
};
use crate::rate_limit::{empty_profile, ProfileView, RateLimitHeaderProfile, RateLimitHeaderProfileBuilder};
use crate::retry::{
    at_least_one, default_retry_status_codes, default_retry_statuses, RetryPolicy,
    RetryPolicyView,
};
use crate::text::strings_view;

verus! {

broadcast use vstd::seq::group_seq_axioms;

/// A composed transport for a manager's client, being configured.
pub struct ManagedMiddlewareTransportBuilder<Driver, TransportState, M, R, Tel> {
    pub manager: VcsManager<Driver>,
    pub pipeline: TransportPipelineBuilder<TransportState, M>,
    pub retry_enabled: bool,
    pub retry_attempts: u16,
    pub retry_status_codes: Vec<u16>,
    pub rate_limit_enabled: bool,
    pub rate_limit_headers: RateLimitHeaderProfileBuilder,
    pub rate_limit_recorder: R,
    pub telemetry_recorder: Option<Tel>,
}

/// A layer around the pipeline of a composed transport.
#[derive(Clone, Copy, Debug, PartialEq, Eq, Structural)]
pub enum TransportLayer {
    RateLimit,
    Retry,
    Telemetry,
}

/// The layers that are switched on, from the inside out: rate-limit observation
/// next to the pipeline, then retrying, then telemetry outermost.
pub open spec fn layer_order(rate_limit: bool, retry: bool, telemetry: bool) -> Seq<TransportLayer> {
    (if rate_limit {
        seq![TransportLayer::RateLimit]
    } else {
        seq![]
    }) + (if retry {
        seq![TransportLayer::Retry]
    } else {
        seq![]
    }) + (if telemetry {
        seq![TransportLayer::Telemetry]
    } else {
        seq![]
    })
}

/// The layers of a composed transport: the pipeline, what each layer around it is
/// made with (where it is switched on), and the order in which they wrap it, from
/// the inside out.
pub struct TransportLayers<T, M, R, Tel> {
    pub order: Vec<TransportLayer>,
    pub pipeline: TransportPipeline<T, M>,
    pub rate_limit: Option<(RateLimitHeaderProfile, R)>,
    pub retry: Option<RetryPolicy>,
    pub telemetry: Option<Tel>,
}

impl<Driver, T, M, R, Tel> ManagedMiddlewareTransportBuilder<Driver, ProvidedTransport<T>, M, R, Tel> {
    /// A pipeline with no stage over `transport`; retrying (three attempts, on the
    /// default statuses) and rate-limit observation off; no telemetry.
    pub fn make(manager: VcsManager<Driver>, transport: T, recorder: R) -> (r: Self)
        ensures
            r.manager == manager,
            r.pipeline@.len() == 0,
            r.pipeline.transport.transport == transport,
            !r.retry_enabled,
            r.retry_attempts == 3,
            r.retry_status_codes@ == default_retry_statuses(),
            !r.rate_limit_enabled,
            r.rate_limit_headers@ == empty_profile(),
            r.rate_limit_recorder == recorder,
            r.telemetry_recorder is None,
    {
        ManagedMiddlewareTransportBuilder {
            manager,
            pipeline: middleware().transport(transport),
            retry_enabled: false,
            retry_attempts: 3,
            retry_status_codes: default_retry_status_codes(),
            rate_limit_enabled: false,
            rate_limit_headers: RateLimitHeaderProfileBuilder::default(),
            rate_limit_recorder: recorder,
            telemetry_recorder: None,
        }
    }

    /// The layers of the composed transport, as configured.
    pub fn layers(self) -> (r: TransportLayers<T, M, R, Tel>)
        ensures
            layers_of(self, r),
            r.pipeline.transport == self.pipeline.transport.transport,
    {
        let mut order: Vec<TransportLayer> = Vec::new();
        if self.rate_limit_enabled {
            order.push(TransportLayer::RateLimit);
        }
        if self.retry_enabled {
            order.push(TransportLayer::Retry);
        }
        if self.telemetry_recorder.is_some() {
            order.push(TransportLayer::Telemetry);
        }
        assert(order@ =~= layer_order(
            self.rate_limit_enabled,
            self.retry_enabled,
            self.telemetry_recorder is Some,
        ));
        let rate_limit = if self.rate_limit_enabled {
            Some((self.rate_limit_headers.build(), self.rate_limit_recorder))
        } else {
            None
        };
        let retry = if self.retry_enabled {
            Some(RetryPolicy::make(self.retry_attempts, self.retry_status_codes))
        } else {
            None
        };
        TransportLayers {
            order,
            pipeline: self.pipeline.build(),
            rate_limit,
            retry,
            telemetry: self.telemetry_recorder,
        }
    }
}

impl<Driver, S, M, R, Tel> ManagedMiddlewareTransportBuilder<Driver, S, M, R, Tel> {
    /// Adds a middleware of the caller's after the stages so far.
    pub fn with(self, middleware: M) -> (r: Self)
        ensures
            r.pipeline@ == self.pipeline@.push(StageView::Custom(middleware)),
            r.pipeline.transport == self.pipeline.transport,
            r == (Self { pipeline: r.pipeline, ..self }),
    {
        ManagedMiddlewareTransportBuilder { pipeline: self.pipeline.with(middleware), ..self }
    }

    /// Adds a stage that adds the header `name: value`.
    pub fn header(self, name: &str, value: &str) -> (r: Self)
        ensures
            r.pipeline@ == self.pipeline@.push(
                StageView::Header(HeaderView { name: name@, value: value@ }),
            ),
            r.pipeline.transport == self.pipeline.transport,
            r == (Self { pipeline: r.pipeline, ..self }),
    {
        ManagedMiddlewareTransportBuilder { pipeline: self.pipeline.header(name, value), ..self }
    }

    /// Switches retrying on.
    pub fn retry(self) -> (r: Self)
        ensures
            r == (Self { retry_enabled: true, ..self }),
    {
        ManagedMiddlewareTransportBuilder { retry_enabled: true, ..self }
    }

    /// At most `retry_attempts` attempts, and at least one.
    pub fn attempts(self, retry_attempts: u16) -> (r: Self)
        ensures
            r == (Self { retry_attempts: at_least_one(retry_attempts), ..self }),
    {
        let m = if retry_attempts < 1 {
            1
        } else {
            retry_attempts
        };
        ManagedMiddlewareTransportBuilder { retry_attempts: m, ..self }
    }

    /// Retries `status_code` too.
    pub fn on_status(self, status_code: u16) -> (r: Self)
        ensures
            r.retry_status_codes@ == self.retry_status_codes@.push(status_code),
            r == (Self { retry_status_codes: r.retry_status_codes, ..self }),
    {
        let mut codes = self.retry_status_codes;
        codes.push(status_code);
        ManagedMiddlewareTransportBuilder { retry_status_codes: codes, ..self }
    }

    /// Retries each of `status_codes` too.
    pub fn on_statuses(self, status_codes: Vec<u16>) -> (r: Self)
        ensures
            r.retry_status_codes@ == self.retry_status_codes@ + status_codes@,
            r == (Self { retry_status_codes: r.retry_status_codes, ..self }),
    {
        let mut codes = self.retry_status_codes;
        let mut more = status_codes;
        codes.append(&mut more);
        ManagedMiddlewareTransportBuilder { retry_status_codes: codes, ..self }
    }

    /// Switches rate-limit observation on.
    pub fn rate_limit(self) -> (r: Self)
        ensures
            r == (Self { rate_limit_enabled: true, ..self }),
    {
        ManagedMiddlewareTransportBuilder { rate_limit_enabled: true, ..self }
    }

    pub fn remaining(self, headers: Vec<String>) -> (r: Self)
        ensures
            r.rate_limit_headers@ == (ProfileView {
                remaining: self.rate_limit_headers@.remaining + strings_view(headers@),
                ..self.rate_limit_headers@
            }),
            r == (Self { rate_limit_headers: r.rate_limit_headers, ..self }),
    {
        ManagedMiddlewareTransportBuilder {
            rate_limit_headers: self.rate_limit_headers.remaining(headers),
            ..self
        }
    }

    pub fn reset_at(self, headers: Vec<String>) -> (r: Self)
        ensures
            r.rate_limit_headers@ == (ProfileView {
                reset_at: self.rate_limit_headers@.reset_at + strings_view(headers@),
                ..self.rate_limit_headers@
            }),
            r == (Self { rate_limit_headers: r.rate_limit_headers, ..self }),
    {
        ManagedMiddlewareTransportBuilder {
            rate_limit_headers: self.rate_limit_headers.reset_at(headers),
            ..self
        }
    }

    pub fn retry_after(self, headers: Vec<String>) -> (r: Self)
        ensures
            r.rate_limit_headers@ == (ProfileView {
                retry_after: self.rate_limit_headers@.retry_after + strings_view(headers@),
                ..self.rate_limit_headers@
            }),
            r == (Self { rate_limit_headers: r.rate_limit_headers, ..self }),
    {
        ManagedMiddlewareTransportBuilder {
            rate_limit_headers: self.rate_limit_headers.retry_after(headers),
            ..self
        }
    }

    pub fn cost(self, headers: Vec<String>) -> (r: Self)
        ensures
            r.rate_limit_headers@ == (ProfileView {
                cost: self.rate_limit_headers@.cost + strings_view(headers@),
                ..self.rate_limit_headers@
            }),
            r == (Self { rate_limit_headers: r.rate_limit_headers, ..self }),
    {
        ManagedMiddlewareTransportBuilder {
            rate_limit_headers: self.rate_limit_headers.cost(headers),
            ..self
        }
    }

    /// Sends the rate-limit observations to `recorder` instead.
    pub fn recorder(self, recorder: R) -> (r: Self)
        ensures
            r == (Self { rate_limit_recorder: recorder, ..self }),
    {
        ManagedMiddlewareTransportBuilder { rate_limit_recorder: recorder, ..self }
    }

    /// Records telemetry of each exchange with `recorder`.
    pub fn telemetry(self, recorder: Tel) -> (r: Self)
        ensures
            r == (Self { telemetry_recorder: Some(recorder), ..self }),
    {
        ManagedMiddlewareTransportBuilder { telemetry_recorder: Some(recorder), ..self }
    }
}

/// `l` holds the layers that `b` configures: its pipeline; rate-limit observation
/// under `b`'s profile, with `b`'s recorder, where it is switched on; retrying under
/// `b`'s policy where it is switched on; `b`'s telemetry; and their order.
pub open spec fn layers_of<Driver, T, M, R, Tel>(
    b: ManagedMiddlewareTransportBuilder<Driver, ProvidedTransport<T>, M, R, Tel>,
    l: TransportLayers<T, M, R, Tel>,
) -> bool {
    &&& l.pipeline@ == b.pipeline@
    &&& match l.rate_limit {
        Some(layer) => b.rate_limit_enabled && layer.0@ == b.rate_limit_headers@ && layer.1
            == b.rate_limit_recorder,
        None => !b.rate_limit_enabled,
    }
    &&& match l.retry {
        Some(policy) => b.retry_enabled && policy@ == (RetryPolicyView {
            max_attempts: at_least_one(b.retry_attempts),
            retry_status_codes: b.retry_status_codes@,
        }),
        None => !b.retry_enabled,
    }
    &&& l.telemetry == b.telemetry_recorder
    &&& l.order@ == layer_order(b.rate_limit_enabled, b.retry_enabled, b.telemetry_recorder is Some)
}

/// A send of `request` through `l`, not begun.
pub open spec fn started_send<T, M, R, Tel>(l: TransportLayers<T, M, R, Tel>, request: RequestView) -> SendView {
    SendView {
        original: request,
        current: request,
        pending: None,
        attempts: 0,
        phase: SendPhase::Start,
        profile: match l.rate_limit {
            Some(layer) => Some(layer.0@),
            None => None,
        },
        retry: match l.retry {
            Some(policy) => Some(policy@),
            None => None,
        },
    }
}

impl<T, M, R, Tel> TransportLayers<T, M, R, Tel> {
    /// A send of `request` through these layers, not begun.
    pub fn start(&self, request: Request) -> (r: ComposedSend)
        ensures
            r@ == started_send(*self, request@),
    {
        let profile = match &self.rate_limit {
            Some(layer) => Some(layer.0.copy()),
            None => None,
        };
        let retry = match &self.retry {
            Some(policy) => Some(policy.copy()),
            None => None,
        };
        ComposedSend::make(request, profile, retry)
    }
}

/// A send started on the layers that a builder configures is the send of the
/// composed transport that the builder describes.
pub proof fn law_started_send_is_the_composed_send<Driver, T, M, R, Tel>(
    b: ManagedMiddlewareTransportBuilder<Driver, ProvidedTransport<T>, M, R, Tel>,
    l: TransportLayers<T, M, R, Tel>,
    request: RequestView,
)
    requires
        layers_of(b, l),
    ensures
        started_send(l, request) == composed_send(b, request),
        l.pipeline@ == b.pipeline@,
{
}

/// A send of `request` through the composed transport that `b` describes, not
/// begun: rate-limit observation under `b`'s profile where it is switched on, and
/// retrying under `b`'s policy where it is switched on.
pub open spec fn composed_send<Driver, S, M, R, Tel>(
    b: ManagedMiddlewareTransportBuilder<Driver, S, M, R, Tel>,
    request: RequestView,
) -> SendView {
    SendView {
        original: request,
        current: request,
        pending: None,
        attempts: 0,
        phase: SendPhase::Start,
        profile: if b.rate_limit_enabled {
            Some(b.rate_limit_headers@)
        } else {
            None
        },
        retry: if b.retry_enabled {
            Some(
                RetryPolicyView {
                    max_attempts: at_least_one(b.retry_attempts),
                    retry_status_codes: b.retry_status_codes@,
                },
            )
        } else {
            None
        },
    }
}

/// The retry law of a composed transport with rate-limit observation and retrying
/// switched on: when the transport answers every attempt with a status that is
/// retried, one send goes through the transport exactly as many times as the
/// attempts allowed (at least one), the observation of each response is recorded
/// (observation sits inside retrying), and the last response is delivered.
pub proof fn law_composed_transport_sends_every_retried_attempt<Driver, S, M, R, Tel>(
    b: ManagedMiddlewareTransportBuilder<Driver, S, M, R, Tel>,
    request: RequestView,
    responses: Seq<ResponseView>,
)
    requires
        b.pipeline@.len() <= usize::MAX,
        b.retry_enabled,
        b.rate_limit_enabled,
        responses.len() >= at_least_one(b.retry_attempts),
        forall|k: int|
            0 <= k < responses.len() ==> b.retry_status_codes@.contains(#[trigger] responses[k].status),
    ensures
        exists|fuel: nat|
            {
                &&& (#[trigger] drive(b.pipeline@, composed_send(b, request), responses, fuel)).sends
                    == at_least_one(b.retry_attempts)
                &&& drive(b.pipeline@, composed_send(b, request), responses, fuel).records
                    == at_least_one(b.retry_attempts)
                &&& drive(b.pipeline@, composed_send(b, request), responses, fuel).end
                    == ActionView::Deliver(responses[at_least_one(b.retry_attempts) - 1])
            },
{
    let p = RetryPolicyView {
        max_attempts: at_least_one(b.retry_attempts),
        retry_status_codes: b.retry_status_codes@,
    };
    law_every_retried_attempt_is_sent_and_observed(b.pipeline@, composed_send(b, request), p, responses);
}

/// The pipeline law of a composed transport with rate-limit observation and
/// retrying switched off: one send runs each middleware of the caller's once, in
/// the order they were added, then goes through the transport once, records
/// nothing, and delivers the response.
pub proof fn law_composed_transport_runs_the_pipeline_once<Driver, S, M, R, Tel>(
    b: ManagedMiddlewareTransportBuilder<Driver, S, M, R, Tel>,
    request: RequestView,
    responses: Seq<ResponseView>,
)
    requires
        b.pipeline@.len() <= usize::MAX,
        !b.retry_enabled,
        !b.rate_limit_enabled,
        responses.len() >= 1,
    ensures
        exists|fuel: nat|
            {
                &&& (#[trigger] drive(b.pipeline@, composed_send(b, request), responses, fuel)).handles
                    == custom_indices(b.pipeline@, 0)
                &&& drive(b.pipeline@, composed_send(b, request), responses, fuel).sends == 1
                &&& drive(b.pipeline@, composed_send(b, request), responses, fuel).records == 0
                &&& drive(b.pipeline@, composed_send(b, request), responses, fuel).end
                    == ActionView::Deliver(responses[0])
            },
{
    law_pipeline_runs_each_middleware_once_then_sends_once(b.pipeline@, composed_send(b, request), responses);
}

} // verus!
