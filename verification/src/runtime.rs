//! The provider runtime: a provider, the transport its requests go through, and
//! where telemetry goes; and a provider configured at run time by its base URL and
//! the way it takes tokens.
use vstd::prelude::*;

use crate::http::{
    joined_url, join_url, HeaderView, Method, Request, RequestHeader, RequestUrl, RequestView,
};
use crate::provider::{
    header_option_view, AuthCredential, AuthHeaderStyle, AuthKind, Capability, CapabilitySet,
    DescriptorView, Provider, ProviderDescriptor,
};
use crate::registry::ProviderId;
use crate::text::lit;

verus! {

/// Something that gives a provider: a provider itself, or a configuration.
pub trait IntoProvider {
    type Provider: Provider;

    fn into_provider(self) -> Self::Provider;
}

impl<T: Provider> IntoProvider for T {
    type Provider = T;

    fn into_provider(self) -> (r: T)
        ensures
            r == self,
    {
        self
    }
}

/// The base URL that a runtime-configured provider has unless another is given.
pub open spec fn default_runtime_base_url() -> Seq<char> {
    "https://api.example.test"@
}

/// A provider being configured at run time.
pub struct RuntimeProviderConfigurationBuilder<Sink> {
    pub base_url: String,
    pub token_auth_header_style: AuthHeaderStyle,
    pub telemetry_sink: Option<Sink>,
}

impl<Sink> Default for RuntimeProviderConfigurationBuilder<Sink> {
    /// The default base URL, bearer tokens, no telemetry.
    fn default() -> (r: Self)
        ensures
            r.base_url@ == default_runtime_base_url(),
            r.token_auth_header_style == AuthHeaderStyle::AuthorizationBearer,
            r.telemetry_sink is None,
    {
        RuntimeProviderConfigurationBuilder {
            base_url: lit("https://api.example.test"),
            token_auth_header_style: AuthHeaderStyle::AuthorizationBearer,
            telemetry_sink: None,
        }
    }
}

impl<Sink> RuntimeProviderConfigurationBuilder<Sink> {
    pub fn base_url(self, base_url: &str) -> (r: Self)
        ensures
            r.base_url@ == base_url@,
            r.token_auth_header_style == self.token_auth_header_style,
            r.telemetry_sink == self.telemetry_sink,
    {
        RuntimeProviderConfigurationBuilder { base_url: lit(base_url), ..self }
    }

    /// Tokens go as a bearer token in the `Authorization` header.
    pub fn bearer_auth(self) -> (r: Self)
        ensures
            r == (Self { token_auth_header_style: AuthHeaderStyle::AuthorizationBearer, ..self }),
    {
        RuntimeProviderConfigurationBuilder {
            token_auth_header_style: AuthHeaderStyle::AuthorizationBearer,
            ..self
        }
    }

    /// Telemetry of the runtime goes to `sink`.
    pub fn telemetry(self, sink: Sink) -> (r: Self)
        ensures
            r == (Self { telemetry_sink: Some(sink), ..self }),
    {
        RuntimeProviderConfigurationBuilder { telemetry_sink: Some(sink), ..self }
    }

    /// A runtime for the provider that `provider` gives, keeping the telemetry sink
    /// of this configuration; its transport is still to be given.
    pub fn from<P: IntoProvider>(self, provider: P) -> (r: ProviderRuntimeWithProviderBuilder<
        P::Provider,
        MissingProviderTransport,
        Sink,
    >)
        ensures
            r.telemetry_sink == self.telemetry_sink,
            call_ensures(P::into_provider, (provider,), r.provider),
    {
        ProviderRuntimeWithProviderBuilder {
            provider: provider.into_provider(),
            transport: MissingProviderTransport,
            telemetry_sink: self.telemetry_sink,
        }
    }

    /// A runtime for the configured provider over `transport`.
    pub fn transport<T>(self, transport: T) -> (r: ProviderRuntimeWithProviderBuilder<
        RuntimeConfiguredProvider,
        ProvidedProviderTransport<T>,
        Sink,
    >)
        ensures
            r.provider.base_url@ == self.base_url@,
            r.provider.token_auth_header_style == self.token_auth_header_style,
            r.transport.transport == transport,
            r.telemetry_sink == self.telemetry_sink,
    {
        let RuntimeProviderConfigurationBuilder { base_url, token_auth_header_style, telemetry_sink } =
            self;
        ProviderRuntimeWithProviderBuilder {
            provider: RuntimeConfiguredProvider { base_url, token_auth_header_style },
            transport: ProvidedProviderTransport { transport },
            telemetry_sink,
        }
    }
}

impl<Sink> IntoProvider for RuntimeProviderConfigurationBuilder<Sink> {
    type Provider = RuntimeConfiguredProvider;

    fn into_provider(self) -> (r: RuntimeConfiguredProvider)
        ensures
            r.base_url@ == self.base_url@,
            r.token_auth_header_style == self.token_auth_header_style,
    {
        RuntimeConfiguredProvider {
            base_url: self.base_url,
            token_auth_header_style: self.token_auth_header_style,
        }
    }
}

/// A provider configured at run time.
#[derive(Clone, Debug, PartialEq, Eq)]
pub struct RuntimeConfiguredProvider {
    pub base_url: String,
    pub token_auth_header_style: AuthHeaderStyle,
}

/// How a runtime-configured provider takes credentials of `auth_kind`: anonymous
/// requests carry none, every token goes the configured way.
pub open spec fn runtime_auth_header_style(
    token_style: AuthHeaderStyle,
    auth_kind: AuthKind,
) -> AuthHeaderStyle {
    match auth_kind {
        AuthKind::Anonymous => AuthHeaderStyle::NoAuthorization,
        _ => token_style,
    }
}

impl Provider for RuntimeConfiguredProvider {
    /// Identifier `runtime`, shown as `Runtime`, offering repository operations.
    fn descriptor(&self) -> (r: ProviderDescriptor)
        ensures
            r@ == (DescriptorView {
                id: "runtime"@,
                display_name: "Runtime"@,
                capabilities: seq![Capability::Repos],
            }),
    {
        let caps: Vec<Capability> = vec![Capability::Repos];
        assert(caps@ =~= seq![Capability::Repos]);
        ProviderDescriptor::make(ProviderId::make("runtime"), "Runtime", CapabilitySet::make(caps))
    }

    fn default_base_url(&self) -> (r: &str)
        ensures
            r@ == self.base_url@,
    {
        self.base_url.as_str()
    }

    fn auth_header_style(&self, auth_kind: AuthKind) -> (r: AuthHeaderStyle)
        ensures
            r == runtime_auth_header_style(self.token_auth_header_style, auth_kind),
    {
        match auth_kind {
            AuthKind::Anonymous => AuthHeaderStyle::NoAuthorization,
            AuthKind::PersonalAccessToken => self.token_auth_header_style,
            AuthKind::OAuth => self.token_auth_header_style,
            AuthKind::AppInstallation => self.token_auth_header_style,
            AuthKind::Jwt => self.token_auth_header_style,
        }
    }
}

/// Starts a provider runtime.
#[derive(Clone, Copy, Debug, Default, PartialEq, Eq)]
pub struct ProviderRuntimeBuilder;

impl ProviderRuntimeBuilder {
    /// A provider to configure at run time.
    pub fn provider<Sink>(self) -> (r: RuntimeProviderConfigurationBuilder<Sink>)
        ensures
            r.base_url@ == default_runtime_base_url(),
            r.token_auth_header_style == AuthHeaderStyle::AuthorizationBearer,
            r.telemetry_sink is None,
    {
        RuntimeProviderConfigurationBuilder::default()
    }

    /// A runtime for the provider that `provider` gives, with no telemetry; its
    /// transport is still to be given.
    pub fn with_provider<P: IntoProvider, Sink>(self, provider: P) -> (r: ProviderRuntimeWithProviderBuilder<
        P::Provider,
        MissingProviderTransport,
        Sink,
    >)
        ensures
            r.telemetry_sink is None,
            call_ensures(P::into_provider, (provider,), r.provider),
    {
        self.provider::<Sink>().from(provider)
    }
}

/// The transport is still to be given.
#[derive(Clone, Copy, Debug, Default, PartialEq, Eq)]
pub struct MissingProviderTransport;

/// The transport was given.
pub struct ProvidedProviderTransport<T> {
    pub transport: T,
}

/// A runtime being configured: its provider, the transport state and where
/// telemetry goes.
pub struct ProviderRuntimeWithProviderBuilder<P, TransportState, Sink> {
    pub provider: P,
    pub transport: TransportState,
    pub telemetry_sink: Option<Sink>,
}

impl<P, Sink> ProviderRuntimeWithProviderBuilder<P, MissingProviderTransport, Sink> {
    pub fn transport<T>(self, transport: T) -> (r: ProviderRuntimeWithProviderBuilder<
        P,
        ProvidedProviderTransport<T>,
        Sink,
    >)
        ensures
            r.provider == self.provider,
            r.transport.transport == transport,
            r.telemetry_sink == self.telemetry_sink,
    {
        ProviderRuntimeWithProviderBuilder {
            provider: self.provider,
            transport: ProvidedProviderTransport { transport },
            telemetry_sink: self.telemetry_sink,
        }
    }
}

impl<P, S, Sink> ProviderRuntimeWithProviderBuilder<P, S, Sink> {
    /// Telemetry of the runtime goes to `sink`.
    pub fn telemetry(self, sink: Sink) -> (r: Self)
        ensures
            r == (Self { telemetry_sink: Some(sink), ..self }),
    {
        ProviderRuntimeWithProviderBuilder { telemetry_sink: Some(sink), ..self }
    }
}

impl<P, T, Sink> ProviderRuntimeWithProviderBuilder<P, ProvidedProviderTransport<T>, Sink> {
    /// A request to the runtime that this builder makes, not yet given.
    pub fn request(self) -> (r: ProviderRequestBuilder<P, T, Sink>)
        ensures
            r.runtime.provider == self.provider,
            r.runtime.transport == self.transport.transport,
            r.runtime.telemetry_sink == self.telemetry_sink,
            r.request@ == empty_request(),
    {
        ProviderRequestBuilder { runtime: self.build(), request: empty() }
    }

    pub fn build(self) -> (r: ProviderRuntime<P, T, Sink>)
        ensures
            r.provider == self.provider,
            r.transport == self.transport.transport,
            r.telemetry_sink == self.telemetry_sink,
    {
        ProviderRuntime {
            provider: self.provider,
            transport: self.transport.transport,
            telemetry_sink: self.telemetry_sink,
        }
    }
}

/// A provider with the transport its requests go through and, where given, the
/// sink its telemetry goes to.
pub struct ProviderRuntime<P, T, Sink> {
    pub provider: P,
    pub transport: T,
    pub telemetry_sink: Option<Sink>,
}

impl<P: Clone, T: Clone, Sink: Clone> Clone for ProviderRuntime<P, T, Sink> {
    fn clone(&self) -> (r: Self)
        ensures
            cloned(self.provider, r.provider),
            cloned(self.transport, r.transport),
            match (self.telemetry_sink, r.telemetry_sink) {
                (Some(a), Some(b)) => cloned(a, b),
                (None, None) => true,
                _ => false,
            },
    {
        ProviderRuntime {
            provider: self.provider.clone(),
            transport: self.transport.clone(),
            telemetry_sink: match &self.telemetry_sink {
                Some(sink) => Some(sink.clone()),
                None => None,
            },
        }
    }
}

impl<P: Clone, T: Clone, Sink: Clone> ProviderRuntime<P, T, Sink> {
    /// A request to this runtime's provider, not yet given, over a copy of the
    /// runtime.
    pub fn request(&self) -> (r: ProviderRequestBuilder<P, T, Sink>)
        ensures
            cloned(self.provider, r.runtime.provider),
            cloned(self.transport, r.runtime.transport),
            match (self.telemetry_sink, r.runtime.telemetry_sink) {
                (Some(a), Some(b)) => cloned(a, b),
                (None, None) => true,
                _ => false,
            },
            r.request@ == empty_request(),
    {
        ProviderRequestBuilder { runtime: self.clone(), request: empty() }
    }
}

/// A request not yet given: a `GET` of no URL, with no header and no body.
pub open spec fn empty_request() -> RequestView {
    RequestView { method: Method::Get, url: seq![], headers: seq![], body: None }
}

fn empty() -> (r: Request)
    ensures
        r@ == empty_request(),
{
    let url = RequestUrl::make("");
    proof {
        reveal_strlit("");
        assert(url@ =~= Seq::<char>::empty());
    }
    let r = Request::make(Method::Get, url, None);
    assert(r@ =~= empty_request());
    r
}

/// A request to a runtime's provider, being given: URLs under the provider's
/// default base URL, and the provider's header for a credential.
pub struct ProviderRequestBuilder<P, T, Sink> {
    pub runtime: ProviderRuntime<P, T, Sink>,
    pub request: Request,
}

impl<P: Provider, T, Sink> ProviderRequestBuilder<P, T, Sink> {
    /// A `GET` of `path` under the provider's default base URL.
    pub fn get(self, path: &str) -> (r: Self)
        ensures
            r.runtime == self.runtime,
            exists|base: &str|
                call_ensures(P::default_base_url, (&self.runtime.provider,), base) && r.request@
                    == (RequestView {
                    method: Method::Get,
                    url: joined_url(base@, path@),
                    ..self.request@
                }),
    {
        let url = join_url(self.runtime.provider.default_base_url(), path);
        ProviderRequestBuilder { request: self.request.retarget(Method::Get, url), ..self }
    }

    /// A `POST` to `path` under the provider's default base URL.
    pub fn post(self, path: &str) -> (r: Self)
        ensures
            r.runtime == self.runtime,
            exists|base: &str|
                call_ensures(P::default_base_url, (&self.runtime.provider,), base) && r.request@
                    == (RequestView {
                    method: Method::Post,
                    url: joined_url(base@, path@),
                    ..self.request@
                }),
    {
        let url = join_url(self.runtime.provider.default_base_url(), path);
        ProviderRequestBuilder { request: self.request.retarget(Method::Post, url), ..self }
    }

    /// The provider's header for `credential` added, where it wants one.
    pub fn auth(self, credential: &AuthCredential) -> (r: Self)
        ensures
            r.runtime == self.runtime,
            exists|h: Option<RequestHeader>|
                call_ensures(P::auth_header, (&self.runtime.provider, credential), h)
                    && r.request@ == match header_option_view(h) {
                    Some(v) => RequestView { headers: self.request@.headers.push(v), ..self.request@ },
                    None => self.request@,
                },
    {
        let header = self.runtime.provider.auth_header(credential);
        let ghost given = header;
        let request = match header {
            Some(h) => self.request.with_header(h),
            None => self.request,
        };
        assert(request@ == match header_option_view(given) {
            Some(v) => RequestView { headers: self.request@.headers.push(v), ..self.request@ },
            None => self.request@,
        });
        ProviderRequestBuilder { runtime: self.runtime, request }
    }

    /// The header `name: value` added after the others.
    pub fn header(self, name: &str, value: &str) -> (r: Self)
        ensures
            r.runtime == self.runtime,
            r.request@ == (RequestView {
                headers: self.request@.headers.push(
                    HeaderView { name: name@, value: value@ },
                ),
                ..self.request@
            }),
    {
        ProviderRequestBuilder {
            request: self.request.with_header(RequestHeader::make(name, value)),
            ..self
        }
    }

    /// The request as given.
    pub fn build(self) -> (r: Request)
        ensures
            r@ == self.request@,
    {
        self.request
    }
}

} // verus!
