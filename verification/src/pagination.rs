//! Page requests (a limit and a cursor) and pages of results.
use vstd::prelude::*;

use crate::text::lit;

verus! {

#[derive(Clone, Debug, Default, PartialEq, Eq)]
pub struct PaginationBuilder;

#[derive(Clone, Debug, PartialEq, Eq)]
pub struct PageRequestBuilder {
    limit: Option<PageLimit>,
    cursor: Option<PageCursor>,
}

#[derive(Debug, PartialEq, Eq)]
pub struct PageRequest {
    limit: Option<PageLimit>,
    cursor: Option<PageCursor>,
}

impl Clone for PageRequest {
    fn clone(&self) -> (r: Self)
        ensures
            r@ == self@,
    {
        PageRequest {
            limit: match &self.limit {
                Some(l) => Some(PageLimit(l.0)),
                None => None,
            },
            cursor: match &self.cursor {
                Some(c) => Some(PageCursor(c.0.clone())),
                None => None,
            },
        }
    }
}

impl Default for PageRequestBuilder {
    fn default() -> (r: Self)
        ensures
            r@ == empty_page_request(),
    {
        PageRequestBuilder { limit: None, cursor: None }
    }
}

/// A page request over plain values.
pub struct PageRequestView {
    pub limit: Option<u16>,
    pub cursor: Option<Seq<char>>,
}

pub open spec fn limit_view(l: Option<PageLimit>) -> Option<u16> {
    match l {
        Some(l) => Some(l@),
        None => None,
    }
}

pub open spec fn cursor_view(c: Option<PageCursor>) -> Option<Seq<char>> {
    match c {
        Some(c) => Some(c@),
        None => None,
    }
}

impl View for PageRequestBuilder {
    type V = PageRequestView;

    closed spec fn view(&self) -> PageRequestView {
        PageRequestView { limit: limit_view(self.limit), cursor: cursor_view(self.cursor) }
    }
}

impl View for PageRequest {
    type V = PageRequestView;

    closed spec fn view(&self) -> PageRequestView {
        PageRequestView { limit: limit_view(self.limit), cursor: cursor_view(self.cursor) }
    }
}

pub open spec fn page_request_view(p: Option<PageRequest>) -> Option<PageRequestView> {
    match p {
        Some(p) => Some(p@),
        None => None,
    }
}

/// A copy of an optional page request.
pub fn clone_page_request(p: &Option<PageRequest>) -> (r: Option<PageRequest>)
    ensures
        page_request_view(r) == page_request_view(*p),
{
    match p {
        Some(p) => Some(p.clone()),
        None => None,
    }
}

/// The page request that asks for nothing in particular.
pub open spec fn empty_page_request() -> PageRequestView {
    PageRequestView { limit: None, cursor: None }
}

impl PaginationBuilder {
    pub fn request(self) -> (r: PageRequestBuilder)
        ensures
            r@ == empty_page_request(),
    {
        PageRequestBuilder { limit: None, cursor: None }
    }

    pub fn page<T>(self, items: Vec<T>) -> (r: PageBuilder<T>)
        ensures
            r@ == (PageView { items: items@, next: None }),
    {
        PageBuilder { items, next: None }
    }
}

impl PageRequestBuilder {
    pub fn limit(self, limit: u16) -> (r: Self)
        ensures
            r@ == (PageRequestView { limit: Some(limit), ..self@ }),
    {
        PageRequestBuilder { limit: Some(PageLimit::make(limit)), ..self }
    }

    pub fn cursor(self, cursor: &str) -> (r: Self)
        ensures
            r@ == (PageRequestView { cursor: Some(cursor@), ..self@ }),
    {
        PageRequestBuilder { cursor: Some(PageCursor::make(cursor)), ..self }
    }

    pub fn optional_cursor(self, cursor: Option<&str>) -> (r: Self)
        ensures
            r@ == (PageRequestView {
                cursor: match cursor {
                    Some(c) => Some(c@),
                    None => None,
                },
                ..self@
            }),
    {
        let cursor = match cursor {
            Some(c) => Some(PageCursor::make(c)),
            None => None,
        };
        PageRequestBuilder { cursor, ..self }
    }

    pub fn build(self) -> (r: PageRequest)
        ensures
            r@ == self@,
    {
        PageRequest { limit: self.limit, cursor: self.cursor }
    }
}

impl PageRequest {
    pub fn limit(&self) -> (r: Option<&PageLimit>)
        ensures
            match r {
                Some(l) => self@.limit == Some(l@),
                None => self@.limit is None,
            },
    {
        self.limit.as_ref()
    }

    pub fn cursor(&self) -> (r: Option<&PageCursor>)
        ensures
            match r {
                Some(c) => self@.cursor == Some(c@),
                None => self@.cursor is None,
            },
    {
        self.cursor.as_ref()
    }
}

/// The largest number of items a page may hold.
#[derive(Clone, Debug, PartialEq, Eq)]
pub struct PageLimit(u16);

impl View for PageLimit {
    type V = u16;

    closed spec fn view(&self) -> u16 {
        self.0
    }
}

impl PageLimit {
    pub fn make(limit: u16) -> (r: Self)
        ensures
            r@ == limit,
    {
        PageLimit(limit)
    }

    pub fn as_u16(&self) -> (r: u16)
        ensures
            r == self@,
    {
        self.0
    }
}

/// Where the next page starts, as the provider names it.
#[derive(Clone, Debug, PartialEq, Eq)]
pub struct PageCursor(String);

impl View for PageCursor {
    type V = Seq<char>;

    closed spec fn view(&self) -> Seq<char> {
        self.0@
    }
}

impl PageCursor {
    pub fn make(cursor: &str) -> (r: Self)
        ensures
            r@ == cursor@,
    {
        PageCursor(lit(cursor))
    }

    pub fn as_str(&self) -> (r: &str)
        ensures
            r@ == self@,
    {
        self.0.as_str()
    }
}

/// Some items and, when there are more, the cursor of the next page.
#[derive(Clone, Debug, PartialEq, Eq)]
pub struct Page<T> {
    items: Vec<T>,
    next: Option<PageCursor>,
}

pub struct PageView<T> {
    pub items: Seq<T>,
    pub next: Option<Seq<char>>,
}

impl<T> View for Page<T> {
    type V = PageView<T>;

    closed spec fn view(&self) -> PageView<T> {
        PageView { items: self.items@, next: cursor_view(self.next) }
    }
}

impl<T> Page<T> {
    pub fn make(items: Vec<T>) -> (r: Self)
        ensures
            r@ == (PageView { items: items@, next: None }),
    {
        Page { items, next: None }
    }

    pub fn items(&self) -> (r: &[T])
        ensures
            r@ == self@.items,
    {
        self.items.as_slice()
    }

    pub fn next(&self) -> (r: Option<&PageCursor>)
        ensures
            match r {
                Some(c) => self@.next == Some(c@),
                None => self@.next is None,
            },
    {
        self.next.as_ref()
    }

    pub fn has_next(&self) -> (r: bool)
        ensures
            r == self@.next is Some,
    {
        self.next.is_some()
    }
}

#[derive(Clone, Debug, PartialEq, Eq)]
pub struct PageBuilder<T> {
    items: Vec<T>,
    next: Option<PageCursor>,
}

impl<T> View for PageBuilder<T> {
    type V = PageView<T>;

    closed spec fn view(&self) -> PageView<T> {
        PageView { items: self.items@, next: cursor_view(self.next) }
    }
}

impl<T> PageBuilder<T> {
    pub fn next(self, cursor: &str) -> (r: Self)
        ensures
            r@ == (PageView { next: Some(cursor@), ..self@ }),
    {
        PageBuilder { next: Some(PageCursor::make(cursor)), ..self }
    }

    pub fn optional_next(self, cursor: Option<&str>) -> (r: Self)
        ensures
            r@ == (PageView {
                next: match cursor {
                    Some(c) => Some(c@),
                    None => None,
                },
                ..self@
            }),
    {
        let next = match cursor {
            Some(c) => Some(PageCursor::make(c)),
            None => None,
        };
        PageBuilder { next, ..self }
    }

    pub fn build(self) -> (r: Page<T>)
        ensures
            r@ == self@,
    {
        Page { items: self.items, next: self.next }
    }
}

/// The entry point of page requests and pages.
pub fn pagination() -> (r: PaginationBuilder) {
    PaginationBuilder
}

} // verus!
