//! Rate limits: which response headers report them, and what a response reports.
use vstd::prelude::*;

use crate::http::{response_headers_view, HeaderView, Response, ResponseHeader};
use crate::text::{chars_of, eq_ignore_ascii_case, eq_ignore_case, lit, parse_decimal, parse_unsigned};

pub mod transport;

pub use transport::{ProvidedRateLimitTransport, RateLimitTransport, RateLimitTransportBuilder};

verus! {

broadcast use vstd::seq::group_seq_axioms;

/// Starts the configuration of rate-limit observation.
#[derive(Clone, Debug, Default, PartialEq, Eq)]
pub struct RateLimitBuilder;

impl RateLimitBuilder {
    /// A header profile that knows no header yet.
    pub fn headers(self) -> (r: RateLimitHeaderProfileBuilder)
        ensures
            r@ == empty_profile(),
    {
        RateLimitHeaderProfileBuilder::default()
    }

    /// A transport builder that observes the responses of `transport` into `recorder`.
    pub fn transport<T, R>(self, transport: T, recorder: R) -> (r: RateLimitTransportBuilder<
        ProvidedRateLimitTransport<T>,
        R,
    >)
        ensures
            r.transport.transport == transport,
            r.recorder == recorder,
            r.headers@ == empty_profile(),
    {
        RateLimitTransportBuilder::make(transport, recorder)
    }
}

/// The name of a header that reports a rate limit.
#[derive(Debug, PartialEq, Eq)]
pub struct RateLimitHeaderName(String);

impl View for RateLimitHeaderName {
    type V = Seq<char>;

    closed spec fn view(&self) -> Seq<char> {
        self.0@
    }
}

impl Clone for RateLimitHeaderName {
    fn clone(&self) -> (r: Self)
        ensures
            r@ == self@,
    {
        RateLimitHeaderName(self.0.clone())
    }
}

impl RateLimitHeaderName {
    pub fn make(header: &str) -> (r: Self)
        ensures
            r@ == header@,
    {
        RateLimitHeaderName(lit(header))
    }

    pub fn as_str(&self) -> (r: &str)
        ensures
            r@ == self@,
    {
        self.0.as_str()
    }
}

pub open spec fn names_view(v: Seq<RateLimitHeaderName>) -> Seq<Seq<char>> {
    v.map_values(|n: RateLimitHeaderName| n@)
}

fn copy_names(v: &Vec<RateLimitHeaderName>) -> (r: Vec<RateLimitHeaderName>)
    ensures
        names_view(r@) == names_view(v@),
{
    let mut r: Vec<RateLimitHeaderName> = Vec::new();
    let mut i: usize = 0;
    while i < v.len()
        invariant
            i <= v@.len(),
            names_view(r@) == names_view(v@.take(i as int)),
        decreases v@.len() - i,
    {
        let ghost before = r@;
        r.push(v[i].clone());
        assert(names_view(r@) =~= names_view(before).push(v@[i as int]@));
        assert(v@.take(i + 1) =~= v@.take(i as int).push(v@[i as int]));
        i += 1;
    }
    assert(v@.take(v@.len() as int) =~= v@);
    r
}

/// The header names of each report, in the order they were given.
pub struct ProfileView {
    pub remaining: Seq<Seq<char>>,
    pub reset_at: Seq<Seq<char>>,
    pub retry_after: Seq<Seq<char>>,
    pub cost: Seq<Seq<char>>,
}

pub open spec fn empty_profile() -> ProfileView {
    ProfileView { remaining: seq![], reset_at: seq![], retry_after: seq![], cost: seq![] }
}

/// `names` with the names of `headers` appended.
fn extend_names(names: &mut Vec<RateLimitHeaderName>, headers: &Vec<String>)
    ensures
        names_view(final(names)@) == names_view(old(names)@) + crate::text::strings_view(headers@),
{
    let ghost start = names_view(names@);
    let mut i: usize = 0;
    while i < headers.len()
        invariant
            i <= headers@.len(),
            names_view(names@) == start + crate::text::strings_view(headers@).take(i as int),
        decreases headers@.len() - i,
    {
        let n = RateLimitHeaderName::make(headers[i].as_str());
        let ghost before = names@;
        names.push(n);
        proof {
            assert(names_view(names@) =~= names_view(before).push(n@));
            assert(start + crate::text::strings_view(headers@).take(i + 1) =~= (start
                + crate::text::strings_view(headers@).take(i as int)).push(n@));
        }
        i = i + 1;
    }
    assert(crate::text::strings_view(headers@).take(i as int) =~= crate::text::strings_view(
        headers@,
    ));
}

/// A header profile being given.
#[derive(Clone, Debug, PartialEq, Eq)]
pub struct RateLimitHeaderProfileBuilder {
    remaining_headers: Vec<RateLimitHeaderName>,
    reset_at_headers: Vec<RateLimitHeaderName>,
    retry_after_headers: Vec<RateLimitHeaderName>,
    cost_headers: Vec<RateLimitHeaderName>,
}

impl View for RateLimitHeaderProfileBuilder {
    type V = ProfileView;

    closed spec fn view(&self) -> ProfileView {
        ProfileView {
            remaining: names_view(self.remaining_headers@),
            reset_at: names_view(self.reset_at_headers@),
            retry_after: names_view(self.retry_after_headers@),
            cost: names_view(self.cost_headers@),
        }
    }
}

impl Default for RateLimitHeaderProfileBuilder {
    fn default() -> (r: Self)
        ensures
            r@ == empty_profile(),
    {
        let r = RateLimitHeaderProfileBuilder {
            remaining_headers: Vec::new(),
            reset_at_headers: Vec::new(),
            retry_after_headers: Vec::new(),
            cost_headers: Vec::new(),
        };
        assert(r@ =~= empty_profile()) by {
            assert(names_view(r.remaining_headers@) =~= Seq::<Seq<char>>::empty());
            assert(names_view(r.reset_at_headers@) =~= Seq::<Seq<char>>::empty());
            assert(names_view(r.retry_after_headers@) =~= Seq::<Seq<char>>::empty());
            assert(names_view(r.cost_headers@) =~= Seq::<Seq<char>>::empty());
        }
        r
    }
}

impl RateLimitHeaderProfileBuilder {
    /// Adds headers that report how many requests remain.
    pub fn remaining(self, headers: Vec<String>) -> (r: Self)
        ensures
            r@ == (ProfileView {
                remaining: self@.remaining + crate::text::strings_view(headers@),
                ..self@
            }),
    {
        let mut names = self.remaining_headers;
        extend_names(&mut names, &headers);
        RateLimitHeaderProfileBuilder { remaining_headers: names, ..self }
    }

    /// Adds headers that report when the limit resets.
    pub fn reset_at(self, headers: Vec<String>) -> (r: Self)
        ensures
            r@ == (ProfileView {
                reset_at: self@.reset_at + crate::text::strings_view(headers@),
                ..self@
            }),
    {
        let mut names = self.reset_at_headers;
        extend_names(&mut names, &headers);
        RateLimitHeaderProfileBuilder { reset_at_headers: names, ..self }
    }

    /// Adds headers that report how long to wait before retrying.
    pub fn retry_after(self, headers: Vec<String>) -> (r: Self)
        ensures
            r@ == (ProfileView {
                retry_after: self@.retry_after + crate::text::strings_view(headers@),
                ..self@
            }),
    {
        let mut names = self.retry_after_headers;
        extend_names(&mut names, &headers);
        RateLimitHeaderProfileBuilder { retry_after_headers: names, ..self }
    }

    /// Adds headers that report what a request cost.
    pub fn cost(self, headers: Vec<String>) -> (r: Self)
        ensures
            r@ == (ProfileView { cost: self@.cost + crate::text::strings_view(headers@), ..self@ }),
    {
        let mut names = self.cost_headers;
        extend_names(&mut names, &headers);
        RateLimitHeaderProfileBuilder { cost_headers: names, ..self }
    }

    pub fn build(self) -> (r: RateLimitHeaderProfile)
        ensures
            r@ == self@,
    {
        RateLimitHeaderProfile {
            remaining_headers: self.remaining_headers,
            reset_at_headers: self.reset_at_headers,
            retry_after_headers: self.retry_after_headers,
            cost_headers: self.cost_headers,
        }
    }
}

/// Which response headers report each part of a rate limit.
#[derive(Clone, Debug, Default, PartialEq, Eq)]
pub struct RateLimitHeaderProfile {
    remaining_headers: Vec<RateLimitHeaderName>,
    reset_at_headers: Vec<RateLimitHeaderName>,
    retry_after_headers: Vec<RateLimitHeaderName>,
    cost_headers: Vec<RateLimitHeaderName>,
}

impl RateLimitHeaderProfile {
    /// A profile with the same header names.
    pub fn copy(&self) -> (r: Self)
        ensures
            r@ == self@,
    {
        RateLimitHeaderProfile {
            remaining_headers: copy_names(&self.remaining_headers),
            reset_at_headers: copy_names(&self.reset_at_headers),
            retry_after_headers: copy_names(&self.retry_after_headers),
            cost_headers: copy_names(&self.cost_headers),
        }
    }
}

impl View for RateLimitHeaderProfile {
    type V = ProfileView;

    closed spec fn view(&self) -> ProfileView {
        ProfileView {
            remaining: names_view(self.remaining_headers@),
            reset_at: names_view(self.reset_at_headers@),
            retry_after: names_view(self.retry_after_headers@),
            cost: names_view(self.cost_headers@),
        }
    }
}

/// `name` is one of `names`, ASCII case ignored.
pub open spec fn named(names: Seq<Seq<char>>, name: Seq<char>) -> bool {
    exists|j: int| 0 <= j < names.len() && eq_ignore_case(name, #[trigger] names[j])
}

/// The value of the first header (in the order of the response) whose name is one
/// of `names`, ASCII case ignored.
pub open spec fn spec_find_header(headers: Seq<HeaderView>, names: Seq<Seq<char>>) -> Option<
    Seq<char>,
>
    decreases headers.len(),
{
    if headers.len() == 0 {
        None
    } else if named(names, headers[0].name) {
        Some(headers[0].value)
    } else {
        spec_find_header(headers.drop_first(), names)
    }
}

/// A header value read as a `u64`, as `str::parse::<u64>` reads it.
pub open spec fn header_u64(v: Option<Seq<char>>) -> Option<u64> {
    match v {
        Some(s) => match parse_unsigned(s, u64::MAX as nat) {
            Some(n) => Some(n as u64),
            None => None,
        },
        None => None,
    }
}

/// What a response reports under a profile.
pub struct ObservationView {
    pub remaining: Option<u64>,
    pub reset_at: Option<Seq<char>>,
    pub retry_after: Option<Seq<char>>,
    pub cost: Option<u64>,
}

pub open spec fn spec_observe(p: ProfileView, headers: Seq<HeaderView>) -> ObservationView {
    ObservationView {
        remaining: header_u64(spec_find_header(headers, p.remaining)),
        reset_at: spec_find_header(headers, p.reset_at),
        retry_after: spec_find_header(headers, p.retry_after),
        cost: header_u64(spec_find_header(headers, p.cost)),
    }
}

fn is_named(names: &Vec<RateLimitHeaderName>, name: &str) -> (r: bool)
    ensures
        r == named(names_view(names@), name@),
{
    let n = chars_of(name);
    let mut j: usize = 0;
    while j < names.len()
        invariant
            n@ == name@,
            j <= names@.len(),
            forall|k: int| 0 <= k < j ==> !eq_ignore_case(name@, #[trigger] names_view(names@)[k]),
        decreases names@.len() - j,
    {
        let m = chars_of(names[j].as_str());
        if eq_ignore_ascii_case(n.as_slice(), m.as_slice()) {
            assert(eq_ignore_case(name@, names_view(names@)[j as int]));
            return true;
        }
        j = j + 1;
    }
    false
}

/// The value of the first header of the response whose name is one of `names`.
fn find_header<'a>(response: &'a Response, names: &Vec<RateLimitHeaderName>) -> (r: Option<&'a str>)
    ensures
        match r {
            Some(v) => spec_find_header(response@.headers, names_view(names@)) == Some(v@),
            None => spec_find_header(response@.headers, names_view(names@)) is None,
        },
{
    let headers = response.headers();
    let ghost hs = response@.headers;
    let ghost ns = names_view(names@);
    let mut i: usize = 0;
    proof {
        assert(hs.skip(0) =~= hs);
    }
    while i < headers.len()
        invariant
            hs == response@.headers,
            ns == names_view(names@),
            response_headers_view(headers@) == hs,
            i <= headers@.len(),
            spec_find_header(hs, ns) == spec_find_header(hs.skip(i as int), ns),
        decreases headers@.len() - i,
    {
        let h: &ResponseHeader = &headers[i];
        proof {
            assert(hs.skip(i as int)[0] == h@);
            assert(hs.skip(i as int).drop_first() =~= hs.skip(i + 1));
        }
        if is_named(names, h.name()) {
            return Some(h.value());
        }
        i = i + 1;
    }
    None
}

fn parse_u64(raw: &str) -> (r: Option<u64>)
    ensures
        r == header_u64(Some(raw@)),
{
    let chars = chars_of(raw);
    parse_decimal(chars.as_slice(), u64::MAX)
}

impl RateLimitHeaderProfile {
    /// What `response` reports: for each part, the first matching header; the
    /// counts only when they read as a `u64`.
    pub fn observe(&self, response: &Response) -> (r: RateLimitObservation)
        ensures
            r@ == spec_observe(self@, response@.headers),
    {
        let remaining = match find_header(response, &self.remaining_headers) {
            Some(v) => match parse_u64(v) {
                Some(n) => Some(RateLimitQuota::make(n)),
                None => None,
            },
            None => None,
        };
        let reset_at = match find_header(response, &self.reset_at_headers) {
            Some(v) => Some(RateLimitReset::make(v)),
            None => None,
        };
        let retry_after = match find_header(response, &self.retry_after_headers) {
            Some(v) => Some(RetryAfter::make(v)),
            None => None,
        };
        let cost = match find_header(response, &self.cost_headers) {
            Some(v) => match parse_u64(v) {
                Some(n) => Some(RateLimitCost::make(n)),
                None => None,
            },
            None => None,
        };
        RateLimitObservation { remaining, reset_at, retry_after, cost }
    }
}

/// What one response reported of the rate limit.
#[derive(Clone, Debug, Default, PartialEq, Eq)]
pub struct RateLimitObservation {
    remaining: Option<RateLimitQuota>,
    reset_at: Option<RateLimitReset>,
    retry_after: Option<RetryAfter>,
    cost: Option<RateLimitCost>,
}

impl View for RateLimitObservation {
    type V = ObservationView;

    closed spec fn view(&self) -> ObservationView {
        ObservationView {
            remaining: match self.remaining {
                Some(q) => Some(q.0),
                None => None,
            },
            reset_at: match self.reset_at {
                Some(x) => Some(x.0@),
                None => None,
            },
            retry_after: match self.retry_after {
                Some(x) => Some(x.0@),
                None => None,
            },
            cost: match self.cost {
                Some(c) => Some(c.0),
                None => None,
            },
        }
    }
}

impl RateLimitObservation {
    pub fn make(
        remaining: Option<RateLimitQuota>,
        reset_at: Option<RateLimitReset>,
        retry_after: Option<RetryAfter>,
        cost: Option<RateLimitCost>,
    ) -> (r: Self)
        ensures
            r@ == (ObservationView {
                remaining: match remaining {
                    Some(q) => Some(q@),
                    None => None,
                },
                reset_at: match reset_at {
                    Some(x) => Some(x@),
                    None => None,
                },
                retry_after: match retry_after {
                    Some(x) => Some(x@),
                    None => None,
                },
                cost: match cost {
                    Some(c) => Some(c@),
                    None => None,
                },
            }),
    {
        RateLimitObservation { remaining, reset_at, retry_after, cost }
    }

    pub fn remaining(&self) -> (r: Option<&RateLimitQuota>)
        ensures
            match r {
                Some(q) => self@.remaining == Some(q@),
                None => self@.remaining is None,
            },
    {
        self.remaining.as_ref()
    }

    pub fn reset_at(&self) -> (r: Option<&RateLimitReset>)
        ensures
            match r {
                Some(x) => self@.reset_at == Some(x@),
                None => self@.reset_at is None,
            },
    {
        self.reset_at.as_ref()
    }

    pub fn retry_after(&self) -> (r: Option<&RetryAfter>)
        ensures
            match r {
                Some(x) => self@.retry_after == Some(x@),
                None => self@.retry_after is None,
            },
    {
        self.retry_after.as_ref()
    }

    pub fn cost(&self) -> (r: Option<&RateLimitCost>)
        ensures
            match r {
                Some(c) => self@.cost == Some(c@),
                None => self@.cost is None,
            },
    {
        self.cost.as_ref()
    }
}

/// How many requests remain.
#[derive(Clone, Copy, Debug, PartialEq, Eq)]
pub struct RateLimitQuota(u64);

impl View for RateLimitQuota {
    type V = u64;

    closed spec fn view(&self) -> u64 {
        self.0
    }
}

impl RateLimitQuota {
    pub fn make(quota: u64) -> (r: Self)
        ensures
            r@ == quota,
    {
        RateLimitQuota(quota)
    }

    pub fn as_u64(&self) -> (r: u64)
        ensures
            r == self@,
    {
        self.0
    }
}

/// What a request cost.
#[derive(Clone, Copy, Debug, PartialEq, Eq)]
pub struct RateLimitCost(u64);

impl View for RateLimitCost {
    type V = u64;

    closed spec fn view(&self) -> u64 {
        self.0
    }
}

impl RateLimitCost {
    pub fn make(cost: u64) -> (r: Self)
        ensures
            r@ == cost,
    {
        RateLimitCost(cost)
    }

    pub fn as_u64(&self) -> (r: u64)
        ensures
            r == self@,
    {
        self.0
    }
}

/// When the limit resets, as the header gave it.
#[derive(Clone, Debug, PartialEq, Eq)]
pub struct RateLimitReset(String);

impl View for RateLimitReset {
    type V = Seq<char>;

    closed spec fn view(&self) -> Seq<char> {
        self.0@
    }
}

impl RateLimitReset {
    pub fn make(reset_at: &str) -> (r: Self)
        ensures
            r@ == reset_at@,
    {
        RateLimitReset(lit(reset_at))
    }

    pub fn as_str(&self) -> (r: &str)
        ensures
            r@ == self@,
    {
        self.0.as_str()
    }
}

/// How long to wait before retrying, as the header gave it.
#[derive(Clone, Debug, PartialEq, Eq)]
pub struct RetryAfter(String);

impl View for RetryAfter {
    type V = Seq<char>;

    closed spec fn view(&self) -> Seq<char> {
        self.0@
    }
}

impl RetryAfter {
    pub fn make(retry_after: &str) -> (r: Self)
        ensures
            r@ == retry_after@,
    {
        RetryAfter(lit(retry_after))
    }

    pub fn as_str(&self) -> (r: &str)
        ensures
            r@ == self@,
    {
        self.0.as_str()
    }
}

/// The header at `i` is the first of `headers` whose name is one of `names`,
/// ASCII case ignored.
pub open spec fn first_named_at(headers: Seq<HeaderView>, names: Seq<Seq<char>>, i: int) -> bool {
    &&& 0 <= i < headers.len()
    &&& exists|k: int| 0 <= k < names.len() && eq_ignore_case(headers[i].name, #[trigger] names[k])
    &&& forall|j: int, k: int|
        0 <= j < i && 0 <= k < names.len() ==> !eq_ignore_case(
            #[trigger] headers[j].name,
            #[trigger] names[k],
        )
}

/// No header of `headers` has a name that is one of `names`, ASCII case ignored.
pub open spec fn none_named(headers: Seq<HeaderView>, names: Seq<Seq<char>>) -> bool {
    forall|j: int, k: int|
        0 <= j < headers.len() && 0 <= k < names.len() ==> !eq_ignore_case(
            #[trigger] headers[j].name,
            #[trigger] names[k],
        )
}

proof fn lemma_find_header(headers: Seq<HeaderView>, names: Seq<Seq<char>>, i: int)
    ensures
        first_named_at(headers, names, i) ==> spec_find_header(headers, names) == Some(
            headers[i].value,
        ),
        none_named(headers, names) ==> spec_find_header(headers, names) is None,
    decreases headers.len(),
{
    if headers.len() > 0 {
        let rest = headers.drop_first();
        lemma_find_header(rest, names, i - 1);
        if first_named_at(headers, names, i) && i > 0 {
            assert(!named(names, headers[0].name)) by {
                if named(names, headers[0].name) {
                    let k = choose|k: int| 0 <= k < names.len() && eq_ignore_case(headers[0].name, #[trigger] names[k]);
                    assert(!eq_ignore_case(headers[0].name, names[k]));
                }
            }
            assert(rest[i - 1] == headers[i]);
            assert forall|j: int, k: int| 0 <= j < i - 1 && 0 <= k < names.len() implies !eq_ignore_case(
                #[trigger] rest[j].name,
                #[trigger] names[k],
            ) by {
                assert(rest[j] == headers[j + 1]);
            }
            assert(first_named_at(rest, names, i - 1));
        }
        if first_named_at(headers, names, i) && i == 0 {
            let k = choose|k: int| 0 <= k < names.len() && eq_ignore_case(headers[0].name, #[trigger] names[k]);
            assert(named(names, headers[0].name));
        }
        if none_named(headers, names) {
            assert(!named(names, headers[0].name)) by {
                if named(names, headers[0].name) {
                    let k = choose|k: int| 0 <= k < names.len() && eq_ignore_case(headers[0].name, #[trigger] names[k]);
                    assert(!eq_ignore_case(headers[0].name, names[k]));
                }
            }
            assert forall|j: int, k: int| 0 <= j < rest.len() && 0 <= k < names.len() implies !eq_ignore_case(
                #[trigger] rest[j].name,
                #[trigger] names[k],
            ) by {
                assert(rest[j] == headers[j + 1]);
            }
        }
    }
}

/// What a response reports under a profile: for each report, the value of the
/// first header (in the response's order) named, ASCII case ignored, as one of the
/// profile's headers for it, read as a number for the remaining quota and the
/// cost; nothing where no header is so named.
pub proof fn law_observation_reads_the_first_named_header(
    p: ProfileView,
    headers: Seq<HeaderView>,
    i: int,
)
    ensures
        first_named_at(headers, p.retry_after, i) ==> spec_observe(p, headers).retry_after == Some(
            headers[i].value,
        ),
        none_named(headers, p.retry_after) ==> spec_observe(p, headers).retry_after is None,
        first_named_at(headers, p.reset_at, i) ==> spec_observe(p, headers).reset_at == Some(
            headers[i].value,
        ),
        none_named(headers, p.reset_at) ==> spec_observe(p, headers).reset_at is None,
        first_named_at(headers, p.remaining, i) ==> spec_observe(p, headers).remaining == match parse_unsigned(
            headers[i].value,
            u64::MAX as nat,
        ) {
            Some(n) => Some(n as u64),
            None => None,
        },
        none_named(headers, p.remaining) ==> spec_observe(p, headers).remaining is None,
        first_named_at(headers, p.cost, i) ==> spec_observe(p, headers).cost == match parse_unsigned(
            headers[i].value,
            u64::MAX as nat,
        ) {
            Some(n) => Some(n as u64),
            None => None,
        },
        none_named(headers, p.cost) ==> spec_observe(p, headers).cost is None,
{
    lemma_find_header(headers, p.retry_after, i);
    lemma_find_header(headers, p.reset_at, i);
    lemma_find_header(headers, p.remaining, i);
    lemma_find_header(headers, p.cost, i);
}

} // verus!
