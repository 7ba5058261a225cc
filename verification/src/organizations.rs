//! Organizations that an account belongs to, as any provider describes them.
use vstd::prelude::*;

use crate::http::{
    get_request, get_view, headers_added, headers_view, with_headers, HeaderView, Request,
    RequestHeader, RequestUrl, RequestView,
};
use crate::manager::ManagedProvider;
use crate::pagination::{page_request_view, PageRequest, PageRequestView};
use crate::registry::ProviderId;
use crate::text::lit;

verus! {

broadcast use vstd::seq::group_seq_axioms;

/// A listing of organizations, on a page or not.
#[derive(Debug, Default, PartialEq, Eq)]
pub struct OrganizationListQuery {
    page: Option<PageRequest>,
}

impl View for OrganizationListQuery {
    type V = Option<PageRequestView>;

    closed spec fn view(&self) -> Option<PageRequestView> {
        page_request_view(self.page)
    }
}

impl OrganizationListQuery {
    pub fn make(page: Option<PageRequest>) -> (r: Self)
        ensures
            r@ == page_request_view(page),
    {
        OrganizationListQuery { page }
    }

    pub fn page(&self) -> (r: Option<&PageRequest>)
        ensures
            match r {
                Some(p) => self@ == Some(p@),
                None => self@ is None,
            },
    {
        self.page.as_ref()
    }
}

/// A provider's organizations reached through a transport: the driver that knows
/// the provider's URLs, the transport, the mapper of responses, and headers added
/// to every request.
pub struct TransportBackedOrganizations<Driver, Mapper, T> {
    pub driver: Driver,
    pub transport: T,
    pub mapper: Mapper,
    pub headers: Vec<RequestHeader>,
}

impl<Driver, Mapper, T> TransportBackedOrganizations<Driver, Mapper, T> {
    pub fn make(driver: Driver, transport: T, mapper: Mapper) -> (r: Self)
        ensures
            r.driver == driver,
            r.transport == transport,
            r.mapper == mapper,
            r.headers@.len() == 0,
    {
        TransportBackedOrganizations { driver, transport, mapper, headers: Vec::new() }
    }

    /// Adds `headers` to those added to every request.
    pub fn with_headers(self, headers: Vec<RequestHeader>) -> (r: Self)
        ensures
            headers_view(r.headers@) == headers_view(self.headers@) + headers_view(headers@),
            r.driver == self.driver,
            r.transport == self.transport,
            r.mapper == self.mapper,
    {
        let mut all = self.headers;
        let mut more = headers;
        let ghost a = all@;
        let ghost b = more@;
        all.append(&mut more);
        assert(headers_view(all@) =~= headers_view(a) + headers_view(b));
        TransportBackedOrganizations { headers: all, ..self }
    }

    /// The request with the headers added, in order.
    pub fn apply_headers(&self, request: Request) -> (r: Request)
        ensures
            r@ == (RequestView {
                headers: request@.headers + headers_view(self.headers@),
                ..request@
            }),
    {
        with_headers(request, &self.headers)
    }
}

/// A provider that also knows the URL of the organizations of the account.
pub trait ManagedOrganizationProvider: ManagedProvider {
    fn organization_list_url(&self, page: Option<&PageRequest>) -> RequestUrl;
}

impl<Driver: ManagedOrganizationProvider, Mapper, T> TransportBackedOrganizations<Driver, Mapper, T> {
    /// What `list` sends: a `GET` of the driver's URL of the first page of the
    /// organizations, with the headers.
    pub fn list_request(&self) -> (r: Request)
        ensures
            exists|u: RequestUrl|
                call_ensures(Driver::organization_list_url, (&self.driver, None::<&PageRequest>), u)
                    && r@ == headers_added(get_view(u@), headers_view(self.headers@)),
    {
        let url = self.driver.organization_list_url(None);
        self.apply_headers(get_request(&url))
    }
}

/// Whether an account is a person's or an organization's.
#[derive(Clone, Copy, Debug, PartialEq, Eq, Structural)]
pub enum OrganizationKind {
    Personal,
    Organization,
}

/// An organization of a provider.
#[derive(Debug, PartialEq, Eq)]
pub struct Organization {
    provider: ProviderId,
    id: String,
    login: String,
    kind: OrganizationKind,
}

pub struct OrganizationView {
    pub provider: Seq<char>,
    pub id: Seq<char>,
    pub login: Seq<char>,
    pub kind: OrganizationKind,
}

impl View for Organization {
    type V = OrganizationView;

    closed spec fn view(&self) -> OrganizationView {
        OrganizationView {
            provider: self.provider@,
            id: self.id@,
            login: self.login@,
            kind: self.kind,
        }
    }
}

impl Organization {
    pub fn make(provider: &str, id: &str, login: &str, kind: OrganizationKind) -> (r: Self)
        ensures
            r@ == (OrganizationView { provider: provider@, id: id@, login: login@, kind }),
    {
        Organization { provider: ProviderId::make(provider), id: lit(id), login: lit(login), kind }
    }

    pub fn provider(&self) -> (r: &ProviderId)
        ensures
            r@ == self@.provider,
    {
        &self.provider
    }

    pub fn id(&self) -> (r: &str)
        ensures
            r@ == self@.id,
    {
        self.id.as_str()
    }

    pub fn login(&self) -> (r: &str)
        ensures
            r@ == self@.login,
    {
        self.login.as_str()
    }

    pub fn kind(&self) -> (r: &OrganizationKind)
        ensures
            *r == self@.kind,
    {
        &self.kind
    }
}

} // verus!
