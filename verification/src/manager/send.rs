//! One send through a composed transport, as a machine: the caller performs each
//! action (a middleware of its own, the transport, recording an observation) and
//! hands back what came of it. The pipeline runs its stages in order and stops at
//! the first error; rate-limit observation sits next to the transport; retrying
//! wraps both, so each attempt runs the whole pipeline again on the original
//! request.
use vstd::prelude::*;

use crate::error::{CognitionError, ErrorView};
use crate::http::{HeaderView, Request, RequestView, Response, ResponseView};
use crate::middleware::{stages_view, PipelineStage, StageView};
use crate::rate_limit::{
    spec_observe, ObservationView, ProfileView, RateLimitHeaderProfile, RateLimitObservation,
};
use crate::retry::{spec_next_step, RetryPolicy, RetryPolicyView, RetryStep};

verus! {

broadcast use vstd::seq::group_seq_axioms;

/// Where a send stands.
#[derive(Clone, Copy, Debug, PartialEq, Eq, Structural)]
pub enum SendPhase {
    /// Not begun.
    Start,
    /// Waiting for the caller's middleware at this stage.
    AwaitHandle(usize),
    /// Waiting for the transport.
    AwaitSend,
    /// Waiting for the observation of the response to be recorded.
    AwaitRecord,
    /// Delivered or failed.
    Done,
}

/// What the caller hands back.
pub enum SendEvent {
    Begin,
    Handled(Result<Request, CognitionError>),
    Sent(Result<Response, CognitionError>),
    Recorded,
}

/// What the caller is to do next.
pub enum SendAction {
    /// Run the caller's middleware of this stage on the request.
    Handle(usize, Request),
    /// Send the request through the transport.
    Send(Request),
    /// Record the observation of the response.
    Record(RateLimitObservation),
    /// Hand the response back: the send is over.
    Deliver(Response),
    /// Hand the error back: the send is over.
    Fail(CognitionError),
    /// Nothing: the event does not fit where the send stands.
    Stay,
}

pub enum EventView {
    Begin,
    Handled(Result<RequestView, ErrorView>),
    Sent(Result<ResponseView, ErrorView>),
    Recorded,
}

pub enum ActionView {
    Handle(usize, RequestView),
    Send(RequestView),
    Record(ObservationView),
    Deliver(ResponseView),
    Fail(ErrorView),
    Stay,
}

impl View for SendEvent {
    type V = EventView;

    open spec fn view(&self) -> EventView {
        match self {
            SendEvent::Begin => EventView::Begin,
            SendEvent::Handled(Ok(r)) => EventView::Handled(Ok(r@)),
            SendEvent::Handled(Err(e)) => EventView::Handled(Err(e@)),
            SendEvent::Sent(Ok(r)) => EventView::Sent(Ok(r@)),
            SendEvent::Sent(Err(e)) => EventView::Sent(Err(e@)),
            SendEvent::Recorded => EventView::Recorded,
        }
    }
}

impl View for SendAction {
    type V = ActionView;

    open spec fn view(&self) -> ActionView {
        match self {
            SendAction::Handle(j, r) => ActionView::Handle(*j, r@),
            SendAction::Send(r) => ActionView::Send(r@),
            SendAction::Record(o) => ActionView::Record(o@),
            SendAction::Deliver(r) => ActionView::Deliver(r@),
            SendAction::Fail(e) => ActionView::Fail(e@),
            SendAction::Stay => ActionView::Stay,
        }
    }
}

/// A send over plain values.
pub struct SendView {
    pub original: RequestView,
    pub current: RequestView,
    pub pending: Option<ResponseView>,
    pub attempts: u16,
    pub phase: SendPhase,
    pub profile: Option<ProfileView>,
    pub retry: Option<RetryPolicyView>,
}

/// The first stage from `i` on that is the caller's own, or the number of stages.
pub open spec fn next_custom<M>(stages: Seq<StageView<M>>, i: int) -> int
    decreases stages.len() - i,
{
    if i < 0 || i >= stages.len() {
        stages.len() as int
    } else if stages[i] is Custom {
        i
    } else {
        next_custom(stages, i + 1)
    }
}

/// The request after the header stages from `i` up to the next stage of the caller's.
pub open spec fn headers_from<M>(stages: Seq<StageView<M>>, i: int, r: RequestView) -> RequestView
    decreases stages.len() - i,
{
    if i < 0 || i >= stages.len() {
        r
    } else {
        match stages[i] {
            StageView::Custom(_) => r,
            StageView::Header(h) => headers_from(
                stages,
                i + 1,
                RequestView { headers: r.headers.push(h), ..r },
            ),
        }
    }
}

/// The pipeline run on from stage `i`: the header stages are applied, then the
/// caller's next middleware is asked for, or the transport when none is left.
pub open spec fn advance<M>(stages: Seq<StageView<M>>, v: SendView, i: int) -> (SendView, ActionView) {
    let j = next_custom(stages, i);
    let req = headers_from(stages, i, v.current);
    if j < stages.len() {
        (SendView { current: req, phase: SendPhase::AwaitHandle(j as usize), ..v }, ActionView::Handle(j as usize, req))
    } else {
        (SendView { current: req, phase: SendPhase::AwaitSend, ..v }, ActionView::Send(req))
    }
}

/// What follows a response: a new attempt on the original request while the policy
/// calls for one, else the response is delivered.
pub open spec fn decide<M>(stages: Seq<StageView<M>>, v: SendView, resp: ResponseView) -> (
    SendView,
    ActionView,
) {
    match v.retry {
        Some(p) => if spec_next_step(p, v.attempts, resp.status) == RetryStep::Resend {
            advance(
                stages,
                SendView {
                    attempts: (v.attempts + 1) as u16,
                    current: v.original,
                    pending: None,
                    ..v
                },
                0,
            )
        } else {
            (SendView { phase: SendPhase::Done, pending: None, ..v }, ActionView::Deliver(resp))
        },
        None => (SendView { phase: SendPhase::Done, pending: None, ..v }, ActionView::Deliver(resp)),
    }
}

/// One step of a send.
pub open spec fn send_step<M>(stages: Seq<StageView<M>>, v: SendView, ev: EventView) -> (
    SendView,
    ActionView,
) {
    match (v.phase, ev) {
        (SendPhase::Start, EventView::Begin) => advance(stages, SendView { attempts: 1, ..v }, 0),
        (SendPhase::AwaitHandle(j), EventView::Handled(Ok(r))) => advance(
            stages,
            SendView { current: r, ..v },
            j + 1,
        ),
        (SendPhase::AwaitHandle(_), EventView::Handled(Err(e))) => (
            SendView { phase: SendPhase::Done, ..v },
            ActionView::Fail(e),
        ),
        (SendPhase::AwaitSend, EventView::Sent(Ok(resp))) => match v.profile {
            Some(p) => (
                SendView { phase: SendPhase::AwaitRecord, pending: Some(resp), ..v },
                ActionView::Record(spec_observe(p, resp.headers)),
            ),
            None => decide(stages, v, resp),
        },
        (SendPhase::AwaitSend, EventView::Sent(Err(e))) => (
            SendView { phase: SendPhase::Done, ..v },
            ActionView::Fail(e),
        ),
        (SendPhase::AwaitRecord, EventView::Recorded) => match v.pending {
            Some(resp) => decide(stages, v, resp),
            None => (v, ActionView::Stay),
        },
        _ => (v, ActionView::Stay),
    }
}

/// A send in progress.
pub struct ComposedSend {
    original: Request,
    current: Request,
    pending: Option<Response>,
    attempts: u16,
    phase: SendPhase,
    profile: Option<RateLimitHeaderProfile>,
    retry: Option<RetryPolicy>,
}

impl View for ComposedSend {
    type V = SendView;

    closed spec fn view(&self) -> SendView {
        SendView {
            original: self.original@,
            current: self.current@,
            pending: match self.pending {
                Some(r) => Some(r@),
                None => None,
            },
            attempts: self.attempts,
            phase: self.phase,
            profile: match self.profile {
                Some(p) => Some(p@),
                None => None,
            },
            retry: match self.retry {
                Some(p) => Some(p@),
                None => None,
            },
        }
    }
}

impl ComposedSend {
    /// A send of `request`, not begun, observed under `profile` and retried under
    /// `retry` where they are given.
    pub fn make(
        request: Request,
        profile: Option<RateLimitHeaderProfile>,
        retry: Option<RetryPolicy>,
    ) -> (r: Self)
        ensures
            r@ == (SendView {
                original: request@,
                current: request@,
                pending: None,
                attempts: 0,
                phase: SendPhase::Start,
                profile: match profile {
                    Some(p) => Some(p@),
                    None => None,
                },
                retry: match retry {
                    Some(p) => Some(p@),
                    None => None,
                },
            }),
    {
        let current = request.clone();
        ComposedSend {
            original: request,
            current,
            pending: None,
            attempts: 0,
            phase: SendPhase::Start,
            profile,
            retry,
        }
    }

    /// The pipeline run on from stage `i`.
    fn advance<M>(&mut self, stages: &[PipelineStage<M>], i: usize) -> (r: SendAction)
        ensures
            (final(self)@, r@) == advance(stages_view(stages@), old(self)@, i as int),
    {
        let ghost sv = stages_view(stages@);
        let ghost start = self.current@;
        let mut k: usize = i;
        while k < stages.len()
            invariant
                sv == stages_view(stages@),
                sv.len() == stages@.len(),
                i <= k,
                start == old(self).current@,
                next_custom(sv, i as int) == next_custom(sv, k as int),
                headers_from(sv, i as int, start) == headers_from(sv, k as int, self.current@),
                self.original == old(self).original,
                self.pending == old(self).pending,
                self.attempts == old(self).attempts,
                self.phase == old(self).phase,
                self.profile == old(self).profile,
                self.retry == old(self).retry,
            decreases stages@.len() - k,
        {
            match &stages[k] {
                PipelineStage::Header(h) => {
                    let ghost hv = h@;
                    let cur = self.current.clone();
                    self.current = h.handle(cur);
                    proof {
                        assert(sv[k as int] == StageView::<M>::Header(hv));
                    }
                    k = k + 1;
                },
                PipelineStage::Custom(_) => {
                    proof {
                        assert(sv[k as int] is Custom);
                        assert(next_custom(sv, k as int) == k as int);
                        assert(headers_from(sv, k as int, self.current@) == self.current@);
                        assert(headers_from(sv, i as int, start) == self.current@);
                    }
                    self.phase = SendPhase::AwaitHandle(k);
                    return SendAction::Handle(k, self.current.clone());
                },
            }
        }
        self.phase = SendPhase::AwaitSend;
        SendAction::Send(self.current.clone())
    }

    /// What follows the response `resp`.
    fn decide<M>(&mut self, stages: &[PipelineStage<M>], resp: Response) -> (r: SendAction)
        ensures
            (final(self)@, r@) == decide(stages_view(stages@), old(self)@, resp@),
    {
        self.pending = None;
        let resend = match &self.retry {
            Some(p) => match p.next_step(self.attempts, &resp) {
                RetryStep::Resend => true,
                RetryStep::Deliver => false,
            },
            None => false,
        };
        if resend {
            self.attempts = self.attempts + 1;
            self.current = self.original.clone();
            self.advance(stages, 0)
        } else {
            self.phase = SendPhase::Done;
            SendAction::Deliver(resp)
        }
    }

    /// One step: what the caller is to do after `event`.
    pub fn next<M>(&mut self, stages: &[PipelineStage<M>], event: SendEvent) -> (r: SendAction)
        ensures
            (final(self)@, r@) == send_step(stages_view(stages@), old(self)@, event@),
    {
        match (self.phase, event) {
            (SendPhase::Start, SendEvent::Begin) => {
                self.attempts = 1;
                self.advance(stages, 0)
            },
            (SendPhase::AwaitHandle(j), SendEvent::Handled(Ok(r))) => {
                self.current = r;
                if j < usize::MAX {
                    self.advance(stages, j + 1)
                } else {
                    let n = stages.len();
                    proof {
                        assert(n <= usize::MAX);
                        assert(next_custom(stages_view(stages@), j + 1) == next_custom(
                            stages_view(stages@),
                            j as int,
                        ));
                        assert(headers_from(stages_view(stages@), j + 1, self.current@)
                            == headers_from(stages_view(stages@), j as int, self.current@));
                    }
                    self.advance(stages, j)
                }
            },
            (SendPhase::AwaitHandle(_), SendEvent::Handled(Err(e))) => {
                self.phase = SendPhase::Done;
                SendAction::Fail(e)
            },
            (SendPhase::AwaitSend, SendEvent::Sent(Ok(resp))) => {
                match &self.profile {
                    Some(p) => {
                        let o = p.observe(&resp);
                        self.pending = Some(resp);
                        self.phase = SendPhase::AwaitRecord;
                        SendAction::Record(o)
                    },
                    None => self.decide(stages, resp),
                }
            },
            (SendPhase::AwaitSend, SendEvent::Sent(Err(e))) => {
                self.phase = SendPhase::Done;
                SendAction::Fail(e)
            },
            (SendPhase::AwaitRecord, SendEvent::Recorded) => {
                match self.pending.take() {
                    Some(resp) => self.decide(stages, resp),
                    None => SendAction::Stay,
                }
            },
            _ => SendAction::Stay,
        }
    }
}

/// What came of driving a send: the stages of the caller's that ran, in order, the
/// requests sent through the transport, the observations recorded, and the last
/// action (`Stay` where the drive ran out).
pub struct RunOutcome {
    pub handles: Seq<usize>,
    pub sends: nat,
    pub records: nat,
    pub end: ActionView,
}

/// `o` after the stages `hs` ran.
pub open spec fn after_handles(hs: Seq<usize>, o: RunOutcome) -> RunOutcome {
    RunOutcome { handles: hs + o.handles, ..o }
}

/// A send driven for `fuel` steps by a caller whose middlewares pass the request on
/// unchanged and whose transport answers with `responses`, in turn.
pub open spec fn run<M>(
    stages: Seq<StageView<M>>,
    v: SendView,
    a: ActionView,
    responses: Seq<ResponseView>,
    fuel: nat,
) -> RunOutcome
    decreases fuel,
{
    if fuel == 0 {
        RunOutcome { handles: seq![], sends: 0, records: 0, end: ActionView::Stay }
    } else {
        match a {
            ActionView::Handle(j, req) => {
                let next = send_step(stages, v, EventView::Handled(Ok(req)));
                after_handles(seq![j], run(stages, next.0, next.1, responses, (fuel - 1) as nat))
            },
            ActionView::Send(_) => if responses.len() == 0 {
                RunOutcome { handles: seq![], sends: 0, records: 0, end: ActionView::Stay }
            } else {
                let next = send_step(stages, v, EventView::Sent(Ok(responses[0])));
                let o = run(stages, next.0, next.1, responses.drop_first(), (fuel - 1) as nat);
                RunOutcome { sends: o.sends + 1, ..o }
            },
            ActionView::Record(_) => {
                let next = send_step(stages, v, EventView::Recorded);
                let o = run(stages, next.0, next.1, responses, (fuel - 1) as nat);
                RunOutcome { records: o.records + 1, ..o }
            },
            _ => RunOutcome { handles: seq![], sends: 0, records: 0, end: a },
        }
    }
}

/// A send of `v` driven from its beginning.
pub open spec fn drive<M>(
    stages: Seq<StageView<M>>,
    v: SendView,
    responses: Seq<ResponseView>,
    fuel: nat,
) -> RunOutcome {
    let first = send_step(stages, v, EventView::Begin);
    run(stages, first.0, first.1, responses, fuel)
}

/// The stages of the caller's from `i` on, in order.
pub open spec fn custom_indices<M>(stages: Seq<StageView<M>>, i: int) -> Seq<usize>
    decreases stages.len() - i,
{
    if i < 0 || i >= stages.len() {
        seq![]
    } else if stages[i] is Custom {
        seq![i as usize] + custom_indices(stages, i + 1)
    } else {
        custom_indices(stages, i + 1)
    }
}

proof fn lemma_skip_headers<M>(stages: Seq<StageView<M>>, i: int)
    requires
        0 <= i,
        stages.len() <= usize::MAX,
    ensures
        custom_indices(stages, i) == (if next_custom(stages, i) < stages.len() {
            seq![next_custom(stages, i) as usize] + custom_indices(stages, next_custom(stages, i) + 1)
        } else {
            seq![]
        }),
        i <= next_custom(stages, i) <= stages.len() || i > stages.len(),
    decreases stages.len() - i,
{
    if i < stages.len() && !(stages[i] is Custom) {
        lemma_skip_headers(stages, i + 1);
    }
}

/// Running the pipeline from stage `i`: each stage of the caller's runs once, in
/// order, and then the request goes to the transport, the rest of the send as it
/// was.
proof fn lemma_pipeline<M>(stages: Seq<StageView<M>>, v: SendView, i: int) -> (r: (SendView, RequestView))
    requires
        0 <= i,
        stages.len() <= usize::MAX,
    ensures
        r.0 == (SendView { current: r.0.current, phase: SendPhase::AwaitSend, ..v }),
        forall|f: nat, responses: Seq<ResponseView>|
            #[trigger] run(
                stages,
                advance(stages, v, i).0,
                advance(stages, v, i).1,
                responses,
                f + custom_indices(stages, i).len(),
            ) == after_handles(
                custom_indices(stages, i),
                run(stages, r.0, ActionView::Send(r.1), responses, f),
            ),
    decreases stages.len() - i,
{
    lemma_skip_headers(stages, i);
    let j = next_custom(stages, i);
    let adv = advance(stages, v, i);
    if j < stages.len() {
        let req = headers_from(stages, i, v.current);
        let v1 = SendView { current: req, phase: SendPhase::AwaitHandle(j as usize), ..v };
        assert(adv == (v1, ActionView::Handle(j as usize, req)));
        let v2 = SendView { current: req, ..v1 };
        assert(send_step(stages, v1, EventView::Handled(Ok(req))) == advance(stages, v2, j + 1));
        let rest = lemma_pipeline(stages, v2, j + 1);
        assert forall|f: nat, responses: Seq<ResponseView>|
            #[trigger] run(stages, adv.0, adv.1, responses, f + custom_indices(stages, i).len())
                == after_handles(
                custom_indices(stages, i),
                run(stages, rest.0, ActionView::Send(rest.1), responses, f),
            ) by {
            let k = custom_indices(stages, j + 1).len();
            assert(custom_indices(stages, i).len() == k + 1);
            assert((f + custom_indices(stages, i).len() - 1) as nat == f + k);
            let inner = run(stages, advance(stages, v2, j + 1).0, advance(stages, v2, j + 1).1, responses, f + k);
            assert(inner == after_handles(
                custom_indices(stages, j + 1),
                run(stages, rest.0, ActionView::Send(rest.1), responses, f),
            ));
            assert(seq![j as usize] + custom_indices(stages, j + 1) == custom_indices(stages, i));
            assert(seq![j as usize] + (custom_indices(stages, j + 1) + run(stages, rest.0, ActionView::Send(rest.1), responses, f).handles)
                =~= custom_indices(stages, i) + run(stages, rest.0, ActionView::Send(rest.1), responses, f).handles);
        }
        rest
    } else {
        let req = headers_from(stages, i, v.current);
        assert(custom_indices(stages, i) =~= Seq::<usize>::empty());
        assert forall|f: nat, responses: Seq<ResponseView>|
            #[trigger] run(stages, adv.0, adv.1, responses, f + custom_indices(stages, i).len())
                == after_handles(
                custom_indices(stages, i),
                run(stages, adv.0, ActionView::Send(req), responses, f),
            ) by {
            let o = run(stages, adv.0, ActionView::Send(req), responses, f);
            assert(Seq::<usize>::empty() + o.handles =~= o.handles);
        }
        (adv.0, req)
    }
}

/// Every attempt from attempt `v.attempts` on, when each response has a retried
/// status: the request is sent once per attempt up to the last one, each response
/// observed, and the last response delivered.
proof fn lemma_retried_attempts<M>(
    stages: Seq<StageView<M>>,
    v: SendView,
    p: RetryPolicyView,
    responses: Seq<ResponseView>,
) -> (fuel: nat)
    requires
        stages.len() <= usize::MAX,
        v.profile is Some,
        v.retry == Some(p),
        1 <= v.attempts <= p.max_attempts,
        responses.len() >= p.max_attempts - v.attempts + 1,
        forall|k: int| 0 <= k < responses.len() ==> p.retry_status_codes.contains(#[trigger] responses[k].status),
    ensures
        ({
            let o = run(stages, advance(stages, v, 0).0, advance(stages, v, 0).1, responses, fuel);
            &&& o.sends == p.max_attempts - v.attempts + 1
            &&& o.records == p.max_attempts - v.attempts + 1
            &&& o.end == ActionView::Deliver(responses[p.max_attempts - v.attempts])
        }),
    decreases p.max_attempts - v.attempts,
{
    let at_send = lemma_pipeline(stages, v, 0);
    let k = custom_indices(stages, 0).len();
    let vs = at_send.0;
    let r0 = responses[0];
    let rest = responses.drop_first();
    let pr = v.profile->0;
    let after_send = send_step(stages, vs, EventView::Sent(Ok(r0)));
    let vr = SendView { phase: SendPhase::AwaitRecord, pending: Some(r0), ..vs };
    assert(after_send == (vr, ActionView::Record(spec_observe(pr, r0.headers))));
    assert(send_step(stages, vr, EventView::Recorded) == decide(stages, vr, r0));
    assert(p.retry_status_codes.contains(responses[0].status));
    if v.attempts < p.max_attempts {
        let v2 = SendView {
            attempts: (vr.attempts + 1) as u16,
            current: vr.original,
            pending: None,
            ..vr
        };
        assert(decide(stages, vr, r0) == advance(stages, v2, 0));
        assert forall|j: int| 0 <= j < rest.len() implies p.retry_status_codes.contains(#[trigger] rest[j].status) by {
            assert(rest[j] == responses[j + 1]);
        }
        let f2 = lemma_retried_attempts(stages, v2, p, rest);
        let fuel = f2 + 2 + k;
        let adv2 = advance(stages, v2, 0);
        let o2 = run(stages, adv2.0, adv2.1, rest, f2);
        let o1 = run(stages, vr, ActionView::Record(spec_observe(pr, r0.headers)), rest, (f2 + 1) as nat);
        assert(o1 == RunOutcome { records: o2.records + 1, ..o2 });
        let x = run(stages, vs, ActionView::Send(at_send.1), responses, (f2 + 2) as nat);
        assert(x == RunOutcome { sends: o1.sends + 1, ..o1 });
        assert(run(stages, advance(stages, v, 0).0, advance(stages, v, 0).1, responses, (f2 + 2) + k)
            == after_handles(custom_indices(stages, 0), run(stages, vs, ActionView::Send(at_send.1), responses, f2 + 2)));
        assert(rest[p.max_attempts - v2.attempts] == responses[p.max_attempts - v.attempts]);
        fuel
    } else {
        let fuel = 3 + k;
        let vd = SendView { phase: SendPhase::Done, pending: None, ..vr };
        let o2 = run(stages, vd, ActionView::Deliver(r0), rest, 1);
        assert(o2.end == ActionView::Deliver(r0) && o2.sends == 0 && o2.records == 0);
        let o1 = run(stages, vr, ActionView::Record(spec_observe(pr, r0.headers)), rest, 2);
        assert(o1 == RunOutcome { records: o2.records + 1, ..o2 });
        let x = run(stages, vs, ActionView::Send(at_send.1), responses, 3);
        assert(x == RunOutcome { sends: o1.sends + 1, ..o1 });
        assert(decide(stages, vr, r0) == (SendView { phase: SendPhase::Done, pending: None, ..vr }, ActionView::Deliver(r0)));
        assert(run(stages, advance(stages, v, 0).0, advance(stages, v, 0).1, responses, 3 + k)
            == after_handles(custom_indices(stages, 0), run(stages, vs, ActionView::Send(at_send.1), responses, 3)));
        fuel
    }
}

/// The retry law of a composed transport that observes the rate limit and retries:
/// when every response has a retried status, one send sends the request through the
/// transport exactly `max_attempts` times, records the observation of each
/// response, and delivers the last response.
pub proof fn law_every_retried_attempt_is_sent_and_observed<M>(
    stages: Seq<StageView<M>>,
    v: SendView,
    p: RetryPolicyView,
    responses: Seq<ResponseView>,
)
    requires
        stages.len() <= usize::MAX,
        v.phase == SendPhase::Start,
        v.profile is Some,
        v.retry == Some(p),
        p.max_attempts >= 1,
        responses.len() >= p.max_attempts,
        forall|k: int| 0 <= k < responses.len() ==> p.retry_status_codes.contains(#[trigger] responses[k].status),
    ensures
        exists|fuel: nat|
            {
                &&& (#[trigger] drive(stages, v, responses, fuel)).sends == p.max_attempts
                &&& drive(stages, v, responses, fuel).records == p.max_attempts
                &&& drive(stages, v, responses, fuel).end == ActionView::Deliver(
                    responses[p.max_attempts - 1],
                )
            },
{
    let v1 = SendView { attempts: 1, ..v };
    assert(send_step(stages, v, EventView::Begin) == advance(stages, v1, 0));
    let fuel = lemma_retried_attempts(stages, v1, p, responses);
    assert(drive(stages, v, responses, fuel).sends == p.max_attempts);
}

/// The pipeline law of a composed transport with no layer switched on: one send
/// runs each middleware of the caller's once, in the order of the stages, then
/// sends the request through the transport once and delivers its response.
pub proof fn law_pipeline_runs_each_middleware_once_then_sends_once<M>(
    stages: Seq<StageView<M>>,
    v: SendView,
    responses: Seq<ResponseView>,
)
    requires
        stages.len() <= usize::MAX,
        v.phase == SendPhase::Start,
        v.profile is None,
        v.retry is None,
        responses.len() >= 1,
    ensures
        exists|fuel: nat|
            {
                &&& (#[trigger] drive(stages, v, responses, fuel)).handles == custom_indices(stages, 0)
                &&& drive(stages, v, responses, fuel).sends == 1
                &&& drive(stages, v, responses, fuel).records == 0
                &&& drive(stages, v, responses, fuel).end == ActionView::Deliver(responses[0])
            },
{
    let v1 = SendView { attempts: 1, ..v };
    assert(send_step(stages, v, EventView::Begin) == advance(stages, v1, 0));
    let at_send = lemma_pipeline(stages, v1, 0);
    let k = custom_indices(stages, 0).len();
    let vs = at_send.0;
    assert(send_step(stages, vs, EventView::Sent(Ok(responses[0]))) == (
        SendView { phase: SendPhase::Done, pending: None, ..vs },
        ActionView::Deliver(responses[0]),
    ));
    let vd = SendView { phase: SendPhase::Done, pending: None, ..vs };
    let o2 = run(stages, vd, ActionView::Deliver(responses[0]), responses.drop_first(), 1);
    assert(o2.end == ActionView::Deliver(responses[0]) && o2.handles == Seq::<usize>::empty());
    let x = run(stages, vs, ActionView::Send(at_send.1), responses, 2);
    assert(x == RunOutcome { sends: o2.sends + 1, ..o2 });
    let o = drive(stages, v, responses, 2 + k);
    assert(o == after_handles(custom_indices(stages, 0), run(stages, vs, ActionView::Send(at_send.1), responses, 2)));
    assert(custom_indices(stages, 0) + Seq::<usize>::empty() =~= custom_indices(stages, 0));
}

/// The pipeline stops at the first error: a middleware of the caller's that fails
/// ends the send with its error, and no later stage and no transport runs; so does
/// an error of the transport.
pub proof fn law_first_error_ends_the_send<M>(
    stages: Seq<StageView<M>>,
    v: SendView,
    e: ErrorView,
)
    ensures
        v.phase is AwaitHandle ==> send_step(stages, v, EventView::Handled(Err(e))).1
            == ActionView::Fail(e) && send_step(stages, v, EventView::Handled(Err(e))).0.phase
            == SendPhase::Done,
        v.phase == SendPhase::AwaitSend ==> send_step(stages, v, EventView::Sent(Err(e))).1
            == ActionView::Fail(e) && send_step(stages, v, EventView::Sent(Err(e))).0.phase
            == SendPhase::Done,
        send_step(stages, SendView { phase: SendPhase::Done, ..v }, EventView::Begin).1
            == ActionView::Stay,
{
}

} // verus!
