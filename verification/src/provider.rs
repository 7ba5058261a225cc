//! Providers (forges such as GitHub or GitLab): who they are and what they offer.
use vstd::prelude::*;

use crate::http::{HeaderView, RequestHeader};
use crate::registry::ProviderId;
use crate::text::{cat2, lit};

verus! {

/// A kind of operation that a provider may offer.
#[derive(Clone, Copy, Debug, PartialEq, Eq, Structural)]
pub enum Capability {
    Repositories,
    Repos,
}

/// The kind of credentials a request carries.
#[derive(Clone, Copy, Debug, PartialEq, Eq, Structural)]
pub enum AuthKind {
    Anonymous,
    PersonalAccessToken,
    OAuth,
    AppInstallation,
    Jwt,
}

/// How a provider wants the credentials: not at all, or as a bearer token in the
/// `Authorization` header.
#[derive(Clone, Copy, Debug, PartialEq, Eq, Structural)]
pub enum AuthHeaderStyle {
    NoAuthorization,
    AuthorizationBearer,
}

/// The operations that a provider offers, in the order they were given.
#[derive(Clone, Debug, Default, PartialEq, Eq)]
pub struct CapabilitySet {
    capabilities: Vec<Capability>,
}

impl View for CapabilitySet {
    type V = Seq<Capability>;

    closed spec fn view(&self) -> Seq<Capability> {
        self.capabilities@
    }
}

impl CapabilitySet {
    pub fn make(capabilities: Vec<Capability>) -> (r: Self)
        ensures
            r@ == capabilities@,
    {
        CapabilitySet { capabilities }
    }

    /// Whether the set holds `capability`.
    pub fn supports(&self, capability: &Capability) -> (r: bool)
        ensures
            r == self@.contains(*capability),
    {
        let mut i: usize = 0;
        while i < self.capabilities.len()
            invariant
                i <= self@.len(),
                forall|j: int| 0 <= j < i ==> self@[j] != *capability,
            decreases self@.len() - i,
        {
            if self.capabilities[i] == *capability {
                assert(self@[i as int] == *capability);
                return true;
            }
            i = i + 1;
        }
        false
    }

    pub fn copy(&self) -> (r: Self)
        ensures
            r@ == self@,
    {
        let mut v: Vec<Capability> = Vec::new();
        let mut i: usize = 0;
        while i < self.capabilities.len()
            invariant
                i <= self@.len(),
                v@ == self@.take(i as int),
            decreases self@.len() - i,
        {
            v.push(self.capabilities[i]);
            proof {
                assert(self@.take(i + 1) =~= self@.take(i as int).push(self@[i as int]));
            }
            i = i + 1;
        }
        assert(self@.take(i as int) =~= self@);
        CapabilitySet { capabilities: v }
    }
}

/// Who a provider is: its identifier, the name to show, and what it offers.
#[derive(Debug, PartialEq, Eq)]
pub struct ProviderDescriptor {
    id: ProviderId,
    display_name: String,
    capabilities: CapabilitySet,
}

pub struct DescriptorView {
    pub id: Seq<char>,
    pub display_name: Seq<char>,
    pub capabilities: Seq<Capability>,
}

impl View for ProviderDescriptor {
    type V = DescriptorView;

    closed spec fn view(&self) -> DescriptorView {
        DescriptorView {
            id: self.id@,
            display_name: self.display_name@,
            capabilities: self.capabilities@,
        }
    }
}

impl ProviderDescriptor {
    pub fn make(id: ProviderId, display_name: &str, capabilities: CapabilitySet) -> (r: Self)
        ensures
            r@ == (DescriptorView {
                id: id@,
                display_name: display_name@,
                capabilities: capabilities@,
            }),
    {
        ProviderDescriptor { id, display_name: lit(display_name), capabilities }
    }

    pub fn id(&self) -> (r: &ProviderId)
        ensures
            r@ == self@.id,
    {
        &self.id
    }

    pub fn display_name(&self) -> (r: &str)
        ensures
            r@ == self@.display_name,
    {
        self.display_name.as_str()
    }

    pub fn capabilities(&self) -> (r: &CapabilitySet)
        ensures
            r@ == self@.capabilities,
    {
        &self.capabilities
    }
}

impl Clone for ProviderDescriptor {
    fn clone(&self) -> (r: Self)
        ensures
            r@ == self@,
    {
        ProviderDescriptor {
            id: self.id.clone(),
            display_name: self.display_name.clone(),
            capabilities: self.capabilities.copy(),
        }
    }
}

/// A credential: its kind and its secret.
pub struct AuthCredential {
    kind: AuthKind,
    token: String,
}

pub struct CredentialView {
    pub kind: AuthKind,
    pub token: Seq<char>,
}

impl View for AuthCredential {
    type V = CredentialView;

    closed spec fn view(&self) -> CredentialView {
        CredentialView { kind: self.kind, token: self.token@ }
    }
}

impl AuthCredential {
    pub fn make(kind: AuthKind, token: &str) -> (r: Self)
        ensures
            r@ == (CredentialView { kind, token: token@ }),
    {
        AuthCredential { kind, token: lit(token) }
    }

    pub fn kind(&self) -> (r: AuthKind)
        ensures
            r == self@.kind,
    {
        self.kind
    }

    pub fn token(&self) -> (r: &str)
        ensures
            r@ == self@.token,
    {
        self.token.as_str()
    }
}

/// The header that carries `token` in `style`: none, or `Authorization` with the
/// token as a bearer token.
pub open spec fn auth_header_view(style: AuthHeaderStyle, token: Seq<char>) -> Option<HeaderView> {
    match style {
        AuthHeaderStyle::NoAuthorization => None,
        AuthHeaderStyle::AuthorizationBearer => Some(
            HeaderView { name: "Authorization"@, value: "Bearer "@ + token },
        ),
    }
}

pub open spec fn header_option_view(h: Option<RequestHeader>) -> Option<HeaderView> {
    match h {
        Some(h) => Some(h@),
        None => None,
    }
}

/// The header that carries the token of `credential` in `style`.
pub fn auth_header_in(style: AuthHeaderStyle, credential: &AuthCredential) -> (r: Option<RequestHeader>)
    ensures
        header_option_view(r) == auth_header_view(style, credential@.token),
{
    match style {
        AuthHeaderStyle::NoAuthorization => None,
        AuthHeaderStyle::AuthorizationBearer => {
            let value = cat2("Bearer ", credential.token());
            Some(RequestHeader::make("Authorization", value.as_str()))
        },
    }
}

/// A forge that the library can talk to; each provider says who it is, where its
/// API lives by default, and how it takes credentials.
pub trait Provider {
    fn descriptor(&self) -> ProviderDescriptor;

    fn default_base_url(&self) -> &str;

    fn auth_header_style(&self, auth_kind: AuthKind) -> AuthHeaderStyle;

    /// The header that carries `credential`: in the style the provider wants for
    /// the credential's kind, unless the provider says otherwise.
    fn auth_header(&self, credential: &AuthCredential) -> (r: Option<RequestHeader>)
        default_ensures
            exists|style: AuthHeaderStyle|
                call_ensures(Self::auth_header_style, (self, credential@.kind), style)
                    && header_option_view(r) == auth_header_view(style, credential@.token),
    {
        let style = self.auth_header_style(credential.kind());
        let r = auth_header_in(style, credential);
        assert(header_option_view(r) == auth_header_view(style, credential@.token));
        r
    }
}

} // verus!
