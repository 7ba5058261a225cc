use vcs_core::error::{VcsError, VcsResult};
use vcs_core::provider::{
    AuthHeaderStyle, AuthKind, Capability, CapabilitySet, Provider, ProviderDescriptor,
};
use vcs_core::registry::{ProviderId, ProviderRegistry};

#[derive(Clone, Copy)]
struct TestProvider;

impl Provider for TestProvider {
    fn descriptor(&self) -> ProviderDescriptor {
        ProviderDescriptor::make(
            ProviderId::make("test"),
            "Test",
            CapabilitySet::make(vec![Capability::Repositories]),
        )
    }

    fn default_base_url(&self) -> &str {
        "https://vcs.example.test"
    }

    fn auth_header_style(&self, auth_kind: AuthKind) -> AuthHeaderStyle {
        match auth_kind {
            AuthKind::Anonymous => AuthHeaderStyle::NoAuthorization,
            AuthKind::PersonalAccessToken => AuthHeaderStyle::AuthorizationBearer,
            AuthKind::OAuth => AuthHeaderStyle::AuthorizationBearer,
            AuthKind::AppInstallation => AuthHeaderStyle::AuthorizationBearer,
            AuthKind::Jwt => AuthHeaderStyle::AuthorizationBearer,
        }
    }
}

#[test]
fn registry_returns_registered_provider() -> VcsResult<()> {
    let registry = ProviderRegistry::builder().register(TestProvider)?.build();
    let provider = registry.get_provider(&ProviderId::make("test"))?;

    assert_eq!(provider.descriptor().display_name(), "Test");

    Ok(())
}

#[test]
fn registry_rejects_duplicate_provider_ids() -> VcsResult<()> {
    let result = ProviderRegistry::builder()
        .register(TestProvider)?
        .register(TestProvider);

    assert_eq!(
        result.err(),
        Some(VcsError::ProviderAlreadyRegistered("test".into()))
    );

    Ok(())
}

#[test]
fn registry_filters_providers_by_capability() -> VcsResult<()> {
    let registry = ProviderRegistry::builder().register(TestProvider)?.build();
    let providers = registry.providers_supporting(Capability::Repositories);

    assert_eq!(providers.len(), 1);

    Ok(())
}
