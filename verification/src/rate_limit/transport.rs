//! A transport that observes the rate limit that each response reports.
use vstd::prelude::*;

use super::{empty_profile, ProfileView, RateLimitHeaderProfile, RateLimitHeaderProfileBuilder, RateLimitObservation, spec_observe};
use crate::http::Response;

verus! {

/// The transport was given.
pub struct ProvidedRateLimitTransport<T> {
    pub transport: T,
}

/// A rate-limited transport being configured: the transport, the header profile
/// and where observations go.
pub struct RateLimitTransportBuilder<TransportState, Recorder> {
    pub transport: TransportState,
    pub headers: RateLimitHeaderProfileBuilder,
    pub recorder: Recorder,
}

impl<T, R> RateLimitTransportBuilder<ProvidedRateLimitTransport<T>, R> {
    pub fn make(transport: T, recorder: R) -> (r: Self)
        ensures
            r.transport.transport == transport,
            r.recorder == recorder,
            r.headers@ == empty_profile(),
    {
        RateLimitTransportBuilder {
            transport: ProvidedRateLimitTransport { transport },
            headers: RateLimitHeaderProfileBuilder::default(),
            recorder,
        }
    }

    pub fn build(self) -> (r: RateLimitTransport<T, R>)
        ensures
            r.transport == self.transport.transport,
            r.recorder == self.recorder,
            r.headers@ == self.headers@,
    {
        RateLimitTransport {
            transport: self.transport.transport,
            headers: self.headers.build(),
            recorder: self.recorder,
        }
    }
}

impl<S, R> RateLimitTransportBuilder<S, R> {
    pub fn remaining(self, headers: Vec<String>) -> (r: Self)
        ensures
            r.headers@ == (ProfileView {
                remaining: self.headers@.remaining + crate::text::strings_view(headers@),
                ..self.headers@
            }),
            r.transport == self.transport,
            r.recorder == self.recorder,
    {
        RateLimitTransportBuilder { headers: self.headers.remaining(headers), ..self }
    }

    pub fn reset_at(self, headers: Vec<String>) -> (r: Self)
        ensures
            r.headers@ == (ProfileView {
                reset_at: self.headers@.reset_at + crate::text::strings_view(headers@),
                ..self.headers@
            }),
            r.transport == self.transport,
            r.recorder == self.recorder,
    {
        RateLimitTransportBuilder { headers: self.headers.reset_at(headers), ..self }
    }

    pub fn retry_after(self, headers: Vec<String>) -> (r: Self)
        ensures
            r.headers@ == (ProfileView {
                retry_after: self.headers@.retry_after + crate::text::strings_view(headers@),
                ..self.headers@
            }),
            r.transport == self.transport,
            r.recorder == self.recorder,
    {
        RateLimitTransportBuilder { headers: self.headers.retry_after(headers), ..self }
    }

    pub fn cost(self, headers: Vec<String>) -> (r: Self)
        ensures
            r.headers@ == (ProfileView {
                cost: self.headers@.cost + crate::text::strings_view(headers@),
                ..self.headers@
            }),
            r.transport == self.transport,
            r.recorder == self.recorder,
    {
        RateLimitTransportBuilder { headers: self.headers.cost(headers), ..self }
    }

    /// Sends the observations to `recorder` instead.
    pub fn recorder(self, recorder: R) -> (r: Self)
        ensures
            r.recorder == recorder,
            r.transport == self.transport,
            r.headers@ == self.headers@,
    {
        RateLimitTransportBuilder { recorder, ..self }
    }
}

/// A transport whose responses are observed under a header profile, each
/// observation recorded.
pub struct RateLimitTransport<T, R> {
    pub transport: T,
    pub headers: RateLimitHeaderProfile,
    pub recorder: R,
}

impl<T, R> RateLimitTransport<T, R> {
    pub fn make(transport: T, headers: RateLimitHeaderProfile, recorder: R) -> (r: Self)
        ensures
            r.transport == transport,
            r.headers@ == headers@,
            r.recorder == recorder,
    {
        RateLimitTransport { transport, headers, recorder }
    }

    /// The observation to record for a response that the transport received.
    pub fn observation(&self, response: &Response) -> (r: RateLimitObservation)
        ensures
            r@ == spec_observe(self.headers@, response@.headers),
    {
        self.headers.observe(response)
    }
}

} // verus!
