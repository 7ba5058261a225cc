//! A client of the driver over a transport that observes rate limits.
use vstd::prelude::*;

use super::{ManagedClientProvider, ProviderClient, VcsManager};
use crate::rate_limit::transport::RateLimitTransport;
use crate::rate_limit::{empty_profile, ProfileView, RateLimitHeaderProfileBuilder};
use crate::text::strings_view;

verus! {

/// A rate-limited transport for a manager's client, being configured: the header
/// profile and where observations go.
pub struct ManagedRateLimitTransportBuilder<Driver, TransportKind, Recorder> {
    pub manager: VcsManager<Driver>,
    pub transport: TransportKind,
    pub headers: RateLimitHeaderProfileBuilder,
    pub recorder: Recorder,
}

impl<Driver, T, R> ManagedRateLimitTransportBuilder<Driver, T, R> {
    /// No header named yet; observations go to `recorder`.
    pub fn make(manager: VcsManager<Driver>, transport: T, recorder: R) -> (r: Self)
        ensures
            r.manager == manager,
            r.transport == transport,
            r.recorder == recorder,
            r.headers@ == empty_profile(),
    {
        ManagedRateLimitTransportBuilder {
            manager,
            transport,
            headers: RateLimitHeaderProfileBuilder::default(),
            recorder,
        }
    }

    pub fn remaining(self, headers: Vec<String>) -> (r: Self)
        ensures
            r.headers@ == (ProfileView {
                remaining: self.headers@.remaining + strings_view(headers@),
                ..self.headers@
            }),
            r.manager == self.manager,
            r.transport == self.transport,
            r.recorder == self.recorder,
    {
        ManagedRateLimitTransportBuilder { headers: self.headers.remaining(headers), ..self }
    }

    pub fn reset_at(self, headers: Vec<String>) -> (r: Self)
        ensures
            r.headers@ == (ProfileView {
                reset_at: self.headers@.reset_at + strings_view(headers@),
                ..self.headers@
            }),
            r.manager == self.manager,
            r.transport == self.transport,
            r.recorder == self.recorder,
    {
        ManagedRateLimitTransportBuilder { headers: self.headers.reset_at(headers), ..self }
    }

    pub fn retry_after(self, headers: Vec<String>) -> (r: Self)
        ensures
            r.headers@ == (ProfileView {
                retry_after: self.headers@.retry_after + strings_view(headers@),
                ..self.headers@
            }),
            r.manager == self.manager,
            r.transport == self.transport,
            r.recorder == self.recorder,
    {
        ManagedRateLimitTransportBuilder { headers: self.headers.retry_after(headers), ..self }
    }

    pub fn cost(self, headers: Vec<String>) -> (r: Self)
        ensures
            r.headers@ == (ProfileView {
                cost: self.headers@.cost + strings_view(headers@),
                ..self.headers@
            }),
            r.manager == self.manager,
            r.transport == self.transport,
            r.recorder == self.recorder,
    {
        ManagedRateLimitTransportBuilder { headers: self.headers.cost(headers), ..self }
    }

    /// Sends the observations to `recorder` instead.
    pub fn recorder(self, recorder: R) -> (r: Self)
        ensures
            r.recorder == recorder,
            r.headers@ == self.headers@,
            r.manager == self.manager,
            r.transport == self.transport,
    {
        ManagedRateLimitTransportBuilder { recorder, ..self }
    }

    /// The rate-limited transport that the client is made over.
    pub fn rate_limit_transport(self) -> (r: RateLimitTransport<T, R>)
        ensures
            r.transport == self.transport,
            r.headers@ == self.headers@,
            r.recorder == self.recorder,
    {
        RateLimitTransport::make(self.transport, self.headers.build(), self.recorder)
    }
}

impl<Driver: ManagedClientProvider, T, R> ManagedRateLimitTransportBuilder<Driver, T, R> {
    /// The driver's client over the rate-limited transport.
    pub fn build(self) -> (r: Driver::Client)
        ensures
            self.client_over_rate_limit(r),
    {
        let transport = RateLimitTransport::make(self.transport, self.headers.build(), self.recorder);
        self.manager.transport(transport)
    }

    /// `c` is a client that the driver gave for the rate-limited transport that
    /// this builder describes.
    pub open spec fn client_over_rate_limit(self, c: Driver::Client) -> bool {
        exists|t: RateLimitTransport<T, R>|
            t.transport == self.transport && t.headers@ == self.headers@ && t.recorder
                == self.recorder && call_ensures(
                Driver::client::<RateLimitTransport<T, R>>,
                (&self.manager.driver, t),
                c,
            )
    }

    /// The client, authenticated with `credential`.
    pub fn auth(self, credential: <Driver::Client as ProviderClient>::Credential) -> (r: Driver::Client)
        ensures
            exists|c: Driver::Client|
                self.client_over_rate_limit(c) && call_ensures(
                    <Driver::Client as ProviderClient>::auth,
                    (c, credential),
                    r,
                ),
    {
        self.build().auth(credential)
    }
}

} // verus!
