//! Requests and responses over plain values: what a transport sends and receives.
use vstd::prelude::*;

use crate::error::CognitionError;
use crate::text::{cat3, chars_of, lit, string_of, strings_view};

verus! {

broadcast use vstd::seq::group_seq_axioms;

/// The method of a request.
#[derive(Clone, Copy, Debug, PartialEq, Eq, Structural)]
pub enum Method {
    Get,
    Post,
    Patch,
    Put,
    Delete,
}

/// The URL of a request.
#[derive(Debug, PartialEq, Eq)]
pub struct RequestUrl {
    value: String,
}

impl View for RequestUrl {
    type V = Seq<char>;

    closed spec fn view(&self) -> Seq<char> {
        self.value@
    }
}

impl Clone for RequestUrl {
    fn clone(&self) -> (r: Self)
        ensures
            r@ == self@,
    {
        RequestUrl { value: self.value.clone() }
    }
}

impl RequestUrl {
    pub fn make(value: &str) -> (r: Self)
        ensures
            r@ == value@,
    {
        RequestUrl { value: lit(value) }
    }

    pub fn value(&self) -> (r: &str)
        ensures
            r@ == self@,
    {
        self.value.as_str()
    }
}

/// `path` under `base`: the two joined by one `/`, a `/` that ends `base` and a
/// `/` that starts `path` being dropped first.
pub open spec fn joined_url(base: Seq<char>, path: Seq<char>) -> Seq<char> {
    let b = if base.len() > 0 && base.last() == '/' {
        base.drop_last()
    } else {
        base
    };
    let p = if path.len() > 0 && path[0] == '/' {
        path.drop_first()
    } else {
        path
    };
    b + seq!['/'] + p
}

/// The URL of `path` under `base`.
pub fn join_url(base: &str, path: &str) -> (r: RequestUrl)
    ensures
        r@ == joined_url(base@, path@),
{
    let b = chars_of(base);
    let p = chars_of(path);
    let b_end: usize = if b.len() > 0 && b[b.len() - 1] == '/' {
        b.len() - 1
    } else {
        b.len()
    };
    let p_start: usize = if p.len() > 0 && p[0] == '/' {
        1
    } else {
        0
    };
    let head = string_of(&b, 0, b_end);
    let tail = string_of(&p, p_start, p.len());
    let value = cat3(head.as_str(), "/", tail.as_str());
    proof {
        reveal_strlit("/");
        assert(b@.subrange(0, b_end as int) =~= (if base@.len() > 0 && base@.last() == '/' {
            base@.drop_last()
        } else {
            base@
        }));
        assert(p@.subrange(p_start as int, p@.len() as int) =~= (if path@.len() > 0 && path@[0]
            == '/' {
            path@.drop_first()
        } else {
            path@
        }));
    }
    RequestUrl { value }
}

/// A header of a request.
#[derive(Debug, PartialEq, Eq)]
pub struct RequestHeader {
    name: String,
    value: String,
}

pub struct HeaderView {
    pub name: Seq<char>,
    pub value: Seq<char>,
}

impl View for RequestHeader {
    type V = HeaderView;

    closed spec fn view(&self) -> HeaderView {
        HeaderView { name: self.name@, value: self.value@ }
    }
}

impl Clone for RequestHeader {
    fn clone(&self) -> (r: Self)
        ensures
            r@ == self@,
    {
        RequestHeader { name: self.name.clone(), value: self.value.clone() }
    }
}

impl RequestHeader {
    pub fn make(name: &str, value: &str) -> (r: Self)
        ensures
            r@ == (HeaderView { name: name@, value: value@ }),
    {
        RequestHeader { name: lit(name), value: lit(value) }
    }

    pub fn name(&self) -> (r: &str)
        ensures
            r@ == self@.name,
    {
        self.name.as_str()
    }

    pub fn value(&self) -> (r: &str)
        ensures
            r@ == self@.value,
    {
        self.value.as_str()
    }
}

pub open spec fn headers_view(v: Seq<RequestHeader>) -> Seq<HeaderView> {
    v.map_values(|h: RequestHeader| h@)
}

/// A copy of each header.
pub fn clone_headers(v: &Vec<RequestHeader>) -> (r: Vec<RequestHeader>)
    ensures
        headers_view(r@) == headers_view(v@),
{
    let mut out: Vec<RequestHeader> = Vec::new();
    let mut i: usize = 0;
    while i < v.len()
        invariant
            i <= v@.len(),
            headers_view(out@) == headers_view(v@).take(i as int),
        decreases v@.len() - i,
    {
        let h = v[i].clone();
        proof {
            assert(headers_view(out@.push(h)) =~= headers_view(out@).push(h@));
            assert(headers_view(v@).take(i + 1) =~= headers_view(v@).take(i as int).push(h@));
        }
        out.push(h);
        i = i + 1;
    }
    assert(headers_view(v@).take(i as int) =~= headers_view(v@));
    out
}

/// A request: its method, URL, headers in the order they were added, and body.
#[derive(Debug, PartialEq, Eq)]
pub struct Request {
    method: Method,
    url: RequestUrl,
    headers: Vec<RequestHeader>,
    body: Option<String>,
}

pub struct RequestView {
    pub method: Method,
    pub url: Seq<char>,
    pub headers: Seq<HeaderView>,
    pub body: Option<Seq<char>>,
}

impl View for Request {
    type V = RequestView;

    closed spec fn view(&self) -> RequestView {
        RequestView {
            method: self.method,
            url: self.url@,
            headers: headers_view(self.headers@),
            body: match self.body {
                Some(b) => Some(b@),
                None => None,
            },
        }
    }
}

impl Clone for Request {
    fn clone(&self) -> (r: Self)
        ensures
            r@ == self@,
    {
        Request {
            method: self.method,
            url: self.url.clone(),
            headers: clone_headers(&self.headers),
            body: match &self.body {
                Some(b) => Some(b.clone()),
                None => None,
            },
        }
    }
}

impl Request {
    pub fn make(method: Method, url: RequestUrl, body: Option<String>) -> (r: Self)
        ensures
            r@ == (RequestView {
                method,
                url: url@,
                headers: seq![],
                body: match body {
                    Some(b) => Some(b@),
                    None => None,
                },
            }),
    {
        let r = Request { method, url, headers: Vec::new(), body };
        assert(headers_view(r.headers@) =~= Seq::<HeaderView>::empty());
        r
    }

    /// The request with `header` added after its headers.
    pub fn with_header(self, header: RequestHeader) -> (r: Self)
        ensures
            r@ == (RequestView { headers: self@.headers.push(header@), ..self@ }),
    {
        let mut headers = self.headers;
        let ghost before = headers@;
        headers.push(header);
        assert(headers_view(headers@) =~= headers_view(before).push(header@));
        Request { headers, ..self }
    }

    /// The request with `method` and `url` in place of its own, its headers and
    /// body kept.
    pub fn retarget(self, method: Method, url: RequestUrl) -> (r: Self)
        ensures
            r@ == (RequestView { method, url: url@, ..self@ }),
    {
        Request { method, url, ..self }
    }

    pub fn method(&self) -> (r: Method)
        ensures
            r == self@.method,
    {
        self.method
    }

    pub fn url(&self) -> (r: &RequestUrl)
        ensures
            r@ == self@.url,
    {
        &self.url
    }

    pub fn headers(&self) -> (r: &[RequestHeader])
        ensures
            headers_view(r@) == self@.headers,
    {
        self.headers.as_slice()
    }
}

/// The request with each of `headers` added in turn.
/// `request` with `headers` added after its own.
pub open spec fn headers_added(request: RequestView, headers: Seq<HeaderView>) -> RequestView {
    RequestView { headers: request.headers + headers, ..request }
}

/// A `GET` of `url`, with no header and no body.
pub open spec fn get_view(url: Seq<char>) -> RequestView {
    RequestView { method: Method::Get, url, headers: seq![], body: None }
}

/// `r` is the outcome `q` of building a request with `headers` added to it: the
/// same error, or the request with the headers.
pub open spec fn outcome_with_headers(
    q: Result<Request, CognitionError>,
    r: Result<Request, CognitionError>,
    headers: Seq<HeaderView>,
) -> bool {
    match (q, r) {
        (Ok(a), Ok(b)) => b@ == headers_added(a@, headers),
        (Err(a), Err(b)) => a == b,
        _ => false,
    }
}

/// A `GET` of `url`, with no header and no body.
pub fn get_request(url: &RequestUrl) -> (r: Request)
    ensures
        r@ == get_view(url@),
{
    Request::make(Method::Get, url.clone(), None)
}

pub fn with_headers(request: Request, headers: &Vec<RequestHeader>) -> (r: Request)
    ensures
        r@ == (RequestView { headers: request@.headers + headers_view(headers@), ..request@ }),
{
    let mut out = request;
    let ghost start = out@;
    let mut i: usize = 0;
    while i < headers.len()
        invariant
            i <= headers@.len(),
            out@ == (RequestView {
                headers: start.headers + headers_view(headers@).take(i as int),
                ..start
            }),
        decreases headers@.len() - i,
    {
        let h = headers[i].clone();
        out = out.with_header(h);
        proof {
            assert(start.headers + headers_view(headers@).take(i + 1) =~= (start.headers
                + headers_view(headers@).take(i as int)).push(h@));
        }
        i = i + 1;
    }
    assert(headers_view(headers@).take(i as int) =~= headers_view(headers@));
    out
}

/// The status of a response.
#[derive(Clone, Copy, Debug, PartialEq, Eq, Structural)]
pub struct StatusCode(u16);

impl View for StatusCode {
    type V = u16;

    closed spec fn view(&self) -> u16 {
        self.0
    }
}

impl StatusCode {
    pub fn make(code: u16) -> (r: Self)
        ensures
            r@ == code,
    {
        StatusCode(code)
    }

    pub fn code(&self) -> (r: u16)
        ensures
            r == self@,
    {
        self.0
    }

    /// A status of the `2xx` family.
    pub fn is_success(&self) -> (r: bool)
        ensures
            r == (200 <= self@ && self@ < 300),
    {
        200 <= self.0 && self.0 < 300
    }
}

/// A header of a response.
#[derive(Debug, PartialEq, Eq)]
pub struct ResponseHeader {
    name: String,
    value: String,
}

impl View for ResponseHeader {
    type V = HeaderView;

    closed spec fn view(&self) -> HeaderView {
        HeaderView { name: self.name@, value: self.value@ }
    }
}

impl ResponseHeader {
    pub fn make(name: &str, value: &str) -> (r: Self)
        ensures
            r@ == (HeaderView { name: name@, value: value@ }),
    {
        ResponseHeader { name: lit(name), value: lit(value) }
    }

    pub fn name(&self) -> (r: &str)
        ensures
            r@ == self@.name,
    {
        self.name.as_str()
    }

    pub fn value(&self) -> (r: &str)
        ensures
            r@ == self@.value,
    {
        self.value.as_str()
    }
}

pub open spec fn response_headers_view(v: Seq<ResponseHeader>) -> Seq<HeaderView> {
    v.map_values(|h: ResponseHeader| h@)
}

/// A response: its status, headers in the order received, and body.
#[derive(Debug, PartialEq, Eq)]
pub struct Response {
    status: StatusCode,
    headers: Vec<ResponseHeader>,
    body: String,
}

pub struct ResponseView {
    pub status: u16,
    pub headers: Seq<HeaderView>,
    pub body: Seq<char>,
}

impl View for Response {
    type V = ResponseView;

    closed spec fn view(&self) -> ResponseView {
        ResponseView {
            status: self.status@,
            headers: response_headers_view(self.headers@),
            body: self.body@,
        }
    }
}

impl Response {
    pub fn make(status: u16, headers: Vec<ResponseHeader>, body: String) -> (r: Self)
        ensures
            r@ == (ResponseView {
                status,
                headers: response_headers_view(headers@),
                body: body@,
            }),
    {
        Response { status: StatusCode(status), headers, body }
    }

    pub fn status(&self) -> (r: StatusCode)
        ensures
            r@ == self@.status,
    {
        self.status
    }

    pub fn headers(&self) -> (r: &[ResponseHeader])
        ensures
            response_headers_view(r@) == self@.headers,
    {
        self.headers.as_slice()
    }

    pub fn body(&self) -> (r: &str)
        ensures
            r@ == self@.body,
    {
        self.body.as_str()
    }
}

} // verus!
