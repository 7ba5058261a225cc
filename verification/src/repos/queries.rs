//! Queries over repositories: listing and searching, each with an optional page.
use vstd::prelude::*;

use crate::pagination::{page_request_view, PageRequest, PageRequestView};
use crate::text::lit;

verus! {

#[derive(Clone, Copy, Debug, Default, PartialEq, Eq)]
pub struct RepoQueryBuilder;

impl RepoQueryBuilder {
    pub fn list(self, page: Option<PageRequest>) -> (r: RepositoryListQuery)
        ensures
            r@ == page_request_view(page),
    {
        self.optional_pagination(page).list()
    }

    pub fn pagination(self, page: PageRequest) -> (r: RepositoryListQueryBuilder)
        ensures
            r@ == Some(page@),
    {
        RepositoryListQueryBuilder { page: Some(page) }
    }

    pub fn optional_pagination(self, page: Option<PageRequest>) -> (r: RepositoryListQueryBuilder)
        ensures
            r@ == page_request_view(page),
    {
        RepositoryListQueryBuilder { page }
    }

    pub fn search(self, text: &str) -> (r: RepositorySearchQueryBuilder)
        ensures
            r@ == (RepositorySearchQueryView { text: text@, page: None }),
    {
        RepositorySearchQueryBuilder { text: lit(text), page: None }
    }
}

#[derive(Clone, Debug, Default, PartialEq, Eq)]
pub struct RepositoryListQueryBuilder {
    page: Option<PageRequest>,
}

impl View for RepositoryListQueryBuilder {
    type V = Option<PageRequestView>;

    closed spec fn view(&self) -> Option<PageRequestView> {
        page_request_view(self.page)
    }
}

impl RepositoryListQueryBuilder {
    pub fn list(self) -> (r: RepositoryListQuery)
        ensures
            r@ == self@,
    {
        RepositoryListQuery { page: self.page }
    }
}

#[derive(Clone, Debug, PartialEq, Eq)]
pub struct RepositorySearchQueryBuilder {
    text: String,
    page: Option<PageRequest>,
}

pub struct RepositorySearchQueryView {
    pub text: Seq<char>,
    pub page: Option<PageRequestView>,
}

impl View for RepositorySearchQueryBuilder {
    type V = RepositorySearchQueryView;

    closed spec fn view(&self) -> RepositorySearchQueryView {
        RepositorySearchQueryView { text: self.text@, page: page_request_view(self.page) }
    }
}

impl RepositorySearchQueryBuilder {
    pub fn pagination(self, page: PageRequest) -> (r: Self)
        ensures
            r@ == (RepositorySearchQueryView { page: Some(page@), ..self@ }),
    {
        RepositorySearchQueryBuilder { page: Some(page), ..self }
    }

    pub fn optional_pagination(self, page: Option<PageRequest>) -> (r: Self)
        ensures
            r@ == (RepositorySearchQueryView { page: page_request_view(page), ..self@ }),
    {
        RepositorySearchQueryBuilder { page, ..self }
    }

    pub fn search(self) -> (r: RepositorySearchQuery)
        ensures
            r@ == self@,
    {
        RepositorySearchQuery { text: self.text, page: self.page }
    }
}

/// A listing of repositories, with an optional page.
#[derive(Clone, Debug, Default, PartialEq, Eq)]
pub struct RepositoryListQuery {
    page: Option<PageRequest>,
}

impl View for RepositoryListQuery {
    type V = Option<PageRequestView>;

    closed spec fn view(&self) -> Option<PageRequestView> {
        page_request_view(self.page)
    }
}

impl RepositoryListQuery {
    pub fn page(&self) -> (r: Option<&PageRequest>)
        ensures
            match r {
                Some(p) => self@ == Some(p@),
                None => self@ is None,
            },
    {
        self.page.as_ref()
    }
}

/// A search of repositories by text, with an optional page.
#[derive(Clone, Debug, PartialEq, Eq)]
pub struct RepositorySearchQuery {
    text: String,
    page: Option<PageRequest>,
}

impl View for RepositorySearchQuery {
    type V = RepositorySearchQueryView;

    closed spec fn view(&self) -> RepositorySearchQueryView {
        RepositorySearchQueryView { text: self.text@, page: page_request_view(self.page) }
    }
}

impl RepositorySearchQuery {
    /// A search with no page.
    pub fn make(text: &str) -> (r: Self)
        ensures
            r@ == (RepositorySearchQueryView { text: text@, page: None }),
    {
        RepositorySearchQuery { text: lit(text), page: None }
    }

    pub fn with_page(text: &str, page: PageRequest) -> (r: Self)
        ensures
            r@ == (RepositorySearchQueryView { text: text@, page: Some(page@) }),
    {
        RepoQueryBuilder.search(text).pagination(page).search()
    }

    pub fn text(&self) -> (r: &str)
        ensures
            r@ == self@.text,
    {
        self.text.as_str()
    }

    pub fn page(&self) -> (r: Option<&PageRequest>)
        ensures
            match r {
                Some(p) => self@.page == Some(p@),
                None => self@.page is None,
            },
    {
        self.page.as_ref()
    }
}

} // verus!
