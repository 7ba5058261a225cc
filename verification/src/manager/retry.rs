//! A client of the driver over a transport that retries.
use vstd::prelude::*;

use super::{ManagedClientProvider, ProviderClient, VcsManager};
use crate::retry::{
    at_least_one, default_retry_status_codes, default_retry_statuses, RetryPolicy,
    RetryPolicyView, RetryTransport,
};

verus! {

broadcast use vstd::seq::group_seq_axioms;

/// A retrying transport for a manager's client, being configured.
pub struct ManagedRetryTransportBuilder<Driver, TransportKind> {
    pub manager: VcsManager<Driver>,
    pub transport: TransportKind,
    pub max_attempts: u16,
    pub retry_status_codes: Vec<u16>,
}

impl<Driver, T> View for ManagedRetryTransportBuilder<Driver, T> {
    type V = RetryPolicyView;

    closed spec fn view(&self) -> RetryPolicyView {
        RetryPolicyView {
            max_attempts: self.max_attempts,
            retry_status_codes: self.retry_status_codes@,
        }
    }
}

impl<Driver, T> ManagedRetryTransportBuilder<Driver, T> {
    /// Three attempts, on the default statuses.
    pub fn make(manager: VcsManager<Driver>, transport: T) -> (r: Self)
        ensures
            r.manager == manager,
            r.transport == transport,
            r@ == (RetryPolicyView { max_attempts: 3, retry_status_codes: default_retry_statuses() }),
    {
        ManagedRetryTransportBuilder {
            manager,
            transport,
            max_attempts: 3,
            retry_status_codes: default_retry_status_codes(),
        }
    }

    /// At most `max_attempts` attempts, and at least one.
    pub fn attempts(self, max_attempts: u16) -> (r: Self)
        ensures
            r@ == (RetryPolicyView { max_attempts: at_least_one(max_attempts), ..self@ }),
            r.manager == self.manager,
            r.transport == self.transport,
    {
        let m = if max_attempts < 1 {
            1
        } else {
            max_attempts
        };
        ManagedRetryTransportBuilder { max_attempts: m, ..self }
    }

    /// Retries `status_code` too.
    pub fn on_status(self, status_code: u16) -> (r: Self)
        ensures
            r@ == (RetryPolicyView {
                retry_status_codes: self@.retry_status_codes.push(status_code),
                ..self@
            }),
            r.manager == self.manager,
            r.transport == self.transport,
    {
        let mut codes = self.retry_status_codes;
        codes.push(status_code);
        ManagedRetryTransportBuilder { retry_status_codes: codes, ..self }
    }

    /// Retries each of `status_codes` too.
    pub fn on_statuses(self, status_codes: Vec<u16>) -> (r: Self)
        ensures
            r@ == (RetryPolicyView {
                retry_status_codes: self@.retry_status_codes + status_codes@,
                ..self@
            }),
            r.manager == self.manager,
            r.transport == self.transport,
    {
        let mut codes = self.retry_status_codes;
        let mut more = status_codes;
        codes.append(&mut more);
        ManagedRetryTransportBuilder { retry_status_codes: codes, ..self }
    }

    /// The retrying transport that the client is made over.
    pub fn retry_transport(self) -> (r: RetryTransport<T>)
        ensures
            r.transport == self.transport,
            r.policy@ == (RetryPolicyView { max_attempts: at_least_one(self@.max_attempts), ..self@ }),
    {
        RetryTransport::make(
            self.transport,
            RetryPolicy::make(self.max_attempts, self.retry_status_codes),
        )
    }
}

impl<Driver: ManagedClientProvider, T> ManagedRetryTransportBuilder<Driver, T> {
    /// The driver's client over the retrying transport.
    pub fn build(self) -> (r: Driver::Client)
        ensures
            self.client_over_retry(r),
    {
        let transport = RetryTransport::make(
            self.transport,
            RetryPolicy::make(self.max_attempts, self.retry_status_codes),
        );
        self.manager.transport(transport)
    }

    /// `c` is a client that the driver gave for the retrying transport that this
    /// builder describes.
    pub open spec fn client_over_retry(self, c: Driver::Client) -> bool {
        exists|t: RetryTransport<T>|
            t.transport == self.transport && t.policy@ == (RetryPolicyView {
                max_attempts: at_least_one(self@.max_attempts),
                ..self@
            }) && call_ensures(Driver::client::<RetryTransport<T>>, (&self.manager.driver, t), c)
    }

    /// The client, authenticated with `credential`.
    pub fn auth(self, credential: <Driver::Client as ProviderClient>::Credential) -> (r: Driver::Client)
        ensures
            exists|c: Driver::Client|
                self.client_over_retry(c) && call_ensures(
                    <Driver::Client as ProviderClient>::auth,
                    (c, credential),
                    r,
                ),
    {
        self.build().auth(credential)
    }
}

} // verus!
