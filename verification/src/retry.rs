//! Retrying requests: which statuses are retried, and how many attempts a request
//! gets in all.
use vstd::prelude::*;

use crate::http::Response;

verus! {

broadcast use vstd::seq::group_seq_axioms;

/// The statuses retried unless others are given: too many requests and the
/// server errors that pass.
pub open spec fn default_retry_statuses() -> Seq<u16> {
    seq![429u16, 500u16, 502u16, 503u16, 504u16]
}

pub(crate) fn default_retry_status_codes() -> (r: Vec<u16>)
    ensures
        r@ == default_retry_statuses(),
{
    let v: Vec<u16> = vec![429, 500, 502, 503, 504];
    assert(v@ =~= default_retry_statuses());
    v
}

/// At least one attempt.
pub open spec fn at_least_one(n: u16) -> u16 {
    if n < 1 {
        1
    } else {
        n
    }
}

/// Starts the configuration of a retrying transport.
#[derive(Clone, Copy, Debug, Default, PartialEq, Eq)]
pub struct RetryBuilder;

impl RetryBuilder {
    /// A retrying transport over `transport`: three attempts, on the default statuses.
    pub fn transport<T>(self, transport: T) -> (r: RetryTransportBuilder<ProvidedRetryTransport<T>>)
        ensures
            r.transport.transport == transport,
            r@ == (RetryPolicyView { max_attempts: 3, retry_status_codes: default_retry_statuses() }),
    {
        RetryTransportBuilder {
            transport: ProvidedRetryTransport { transport },
            max_attempts: 3,
            retry_status_codes: default_retry_status_codes(),
        }
    }
}

/// The transport was given.
pub struct ProvidedRetryTransport<T> {
    pub transport: T,
}

/// A retrying transport being configured.
pub struct RetryTransportBuilder<TransportState> {
    pub transport: TransportState,
    pub max_attempts: u16,
    pub retry_status_codes: Vec<u16>,
}

/// How many attempts a request gets, and which statuses are retried.
pub struct RetryPolicyView {
    pub max_attempts: u16,
    pub retry_status_codes: Seq<u16>,
}

impl<S> View for RetryTransportBuilder<S> {
    type V = RetryPolicyView;

    closed spec fn view(&self) -> RetryPolicyView {
        RetryPolicyView {
            max_attempts: self.max_attempts,
            retry_status_codes: self.retry_status_codes@,
        }
    }
}

impl<S> RetryTransportBuilder<S> {
    /// At most `max_attempts` attempts, and at least one.
    pub fn attempts(self, max_attempts: u16) -> (r: Self)
        ensures
            r@ == (RetryPolicyView { max_attempts: at_least_one(max_attempts), ..self@ }),
            r.transport == self.transport,
    {
        let m = if max_attempts < 1 {
            1
        } else {
            max_attempts
        };
        RetryTransportBuilder { max_attempts: m, ..self }
    }

    /// Retries `status_code` too.
    pub fn on_status(self, status_code: u16) -> (r: Self)
        ensures
            r@ == (RetryPolicyView {
                retry_status_codes: self@.retry_status_codes.push(status_code),
                ..self@
            }),
            r.transport == self.transport,
    {
        let mut codes = self.retry_status_codes;
        codes.push(status_code);
        RetryTransportBuilder { retry_status_codes: codes, ..self }
    }

    /// Retries each of `status_codes` too.
    pub fn on_statuses(self, status_codes: Vec<u16>) -> (r: Self)
        ensures
            r@ == (RetryPolicyView {
                retry_status_codes: self@.retry_status_codes + status_codes@,
                ..self@
            }),
            r.transport == self.transport,
    {
        let mut codes = self.retry_status_codes;
        let mut more = status_codes;
        codes.append(&mut more);
        RetryTransportBuilder { retry_status_codes: codes, ..self }
    }
}

impl<T> RetryTransportBuilder<ProvidedRetryTransport<T>> {
    pub fn build(self) -> (r: RetryTransport<T>)
        ensures
            r.transport == self.transport.transport,
            r.policy@ == (RetryPolicyView {
                max_attempts: at_least_one(self@.max_attempts),
                ..self@
            }),
    {
        RetryTransport {
            transport: self.transport.transport,
            policy: RetryPolicy::make(self.max_attempts, self.retry_status_codes),
        }
    }
}

/// How many attempts a request gets, and which statuses are retried.
#[derive(Clone, Debug, PartialEq, Eq)]
pub struct RetryPolicy {
    max_attempts: u16,
    retry_status_codes: Vec<u16>,
}

impl View for RetryPolicy {
    type V = RetryPolicyView;

    closed spec fn view(&self) -> RetryPolicyView {
        RetryPolicyView {
            max_attempts: self.max_attempts,
            retry_status_codes: self.retry_status_codes@,
        }
    }
}

/// What to do with a response.
#[derive(Clone, Copy, Debug, PartialEq, Eq, Structural)]
pub enum RetryStep {
    /// Hand the response to the caller.
    Deliver,
    /// Send the request again.
    Resend,
}

/// A response with this status is retried when attempts remain.
pub open spec fn retried(p: RetryPolicyView, status: u16) -> bool {
    p.retry_status_codes.contains(status)
}

/// What follows the response of attempt `attempts_made`.
pub open spec fn spec_next_step(p: RetryPolicyView, attempts_made: u16, status: u16) -> RetryStep {
    if retried(p, status) && attempts_made < p.max_attempts {
        RetryStep::Resend
    } else {
        RetryStep::Deliver
    }
}

/// How many times a request is sent when the transport answers with `statuses` in
/// turn, from attempt `attempts_made` on (as long as `statuses` lasts).
pub open spec fn sends(p: RetryPolicyView, attempts_made: u16, statuses: Seq<u16>) -> nat
    decreases statuses.len(),
{
    if statuses.len() == 0 {
        0
    } else if spec_next_step(p, attempts_made, statuses[0]) == RetryStep::Deliver {
        1
    } else {
        1 + sends(p, (attempts_made + 1) as u16, statuses.drop_first())
    }
}

impl RetryPolicy {
    /// At most `max_attempts` attempts, and at least one, on `retry_status_codes`.
    pub fn make(max_attempts: u16, retry_status_codes: Vec<u16>) -> (r: Self)
        ensures
            r@ == (RetryPolicyView {
                max_attempts: at_least_one(max_attempts),
                retry_status_codes: retry_status_codes@,
            }),
            r@.max_attempts >= 1,
    {
        let m = if max_attempts < 1 {
            1
        } else {
            max_attempts
        };
        RetryPolicy { max_attempts: m, retry_status_codes }
    }

    /// A policy with the same attempts and statuses.
    pub fn copy(&self) -> (r: Self)
        ensures
            r@ == self@,
    {
        let codes = self.retry_status_codes.clone();
        assert(codes@ =~= self.retry_status_codes@);
        RetryPolicy { max_attempts: self.max_attempts, retry_status_codes: codes }
    }

    pub fn max_attempts(&self) -> (r: u16)
        ensures
            r == self@.max_attempts,
    {
        self.max_attempts
    }

    pub fn retry_status_codes(&self) -> (r: &[u16])
        ensures
            r@ == self@.retry_status_codes,
    {
        self.retry_status_codes.as_slice()
    }

    /// Whether the status of `response` is one to retry.
    pub fn should_retry(&self, response: &Response) -> (r: bool)
        ensures
            r == retried(self@, response@.status),
    {
        let code = response.status().code();
        let mut i: usize = 0;
        while i < self.retry_status_codes.len()
            invariant
                i <= self@.retry_status_codes.len(),
                code == response@.status,
                forall|j: int| 0 <= j < i ==> self@.retry_status_codes[j] != code,
            decreases self@.retry_status_codes.len() - i,
        {
            if self.retry_status_codes[i] == code {
                assert(self@.retry_status_codes[i as int] == code);
                return true;
            }
            i = i + 1;
        }
        false
    }

    /// What to do with the response of attempt `attempts_made` (the first attempt is
    /// attempt 1): send again while the status is retried and attempts remain.
    pub fn next_step(&self, attempts_made: u16, response: &Response) -> (r: RetryStep)
        ensures
            r == spec_next_step(self@, attempts_made, response@.status),
    {
        if !self.should_retry(response) {
            return RetryStep::Deliver;
        }
        if attempts_made >= self.max_attempts {
            return RetryStep::Deliver;
        }
        RetryStep::Resend
    }
}

/// A transport that sends a request again while its response calls for it.
pub struct RetryTransport<T> {
    pub transport: T,
    pub policy: RetryPolicy,
}

impl<T> RetryTransport<T> {
    pub fn make(transport: T, policy: RetryPolicy) -> (r: Self)
        ensures
            r.transport == transport,
            r.policy@ == policy@,
    {
        RetryTransport { transport, policy }
    }

    pub fn policy(&self) -> (r: &RetryPolicy)
        ensures
            r@ == self.policy@,
    {
        &self.policy
    }
}

/// A request is sent at most `max_attempts` times in all, whatever the transport
/// answers: counting from the first attempt, each response either is delivered or
/// leads to one more attempt, and none after the last.
pub proof fn law_attempts_are_bounded(p: RetryPolicyView, attempts_made: u16, statuses: Seq<u16>)
    requires
        1 <= attempts_made <= p.max_attempts,
    ensures
        sends(p, attempts_made, statuses) <= p.max_attempts - attempts_made + 1,
    decreases statuses.len(),
{
    if statuses.len() > 0 && spec_next_step(p, attempts_made, statuses[0]) == RetryStep::Resend {
        law_attempts_are_bounded(p, (attempts_made + 1) as u16, statuses.drop_first());
    }
}

/// While the transport keeps answering with a retried status, the request is sent
/// exactly `max_attempts` times.
pub proof fn law_retried_statuses_use_every_attempt(
    p: RetryPolicyView,
    attempts_made: u16,
    statuses: Seq<u16>,
)
    requires
        1 <= attempts_made <= p.max_attempts,
        statuses.len() >= p.max_attempts - attempts_made + 1,
        forall|i: int| 0 <= i < statuses.len() ==> retried(p, #[trigger] statuses[i]),
    ensures
        sends(p, attempts_made, statuses) == p.max_attempts - attempts_made + 1,
    decreases statuses.len(),
{
    assert(retried(p, statuses[0]));
    if attempts_made < p.max_attempts {
        let rest = statuses.drop_first();
        assert forall|i: int| 0 <= i < rest.len() implies retried(p, #[trigger] rest[i]) by {
            assert(rest[i] == statuses[i + 1]);
        }
        law_retried_statuses_use_every_attempt(p, (attempts_made + 1) as u16, rest);
    }
}

/// A response whose status is not retried is delivered at once.
pub proof fn law_other_statuses_are_delivered(p: RetryPolicyView, attempts_made: u16, status: u16)
    requires
        !retried(p, status),
    ensures
        spec_next_step(p, attempts_made, status) == RetryStep::Deliver,
{
}

} // verus!
