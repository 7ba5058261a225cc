use vcs_core::error::VcsResult;
use vcs_core::registry::ProviderId;
use vcs_core::repositories::{LifecycleState, Repository, RepositoryCoordinates, Visibility};

#[test]
fn repository_resource_is_provider_neutral() -> VcsResult<()> {
    let coordinates = RepositoryCoordinates::make()
        .owner_name("akira-io")
        .name("core")
        .build()?;
    let repository = Repository::make(
        ProviderId::make("github"),
        coordinates,
        Visibility::Public,
        LifecycleState::Active,
    );

    assert_eq!(repository.provider().as_str(), "github");
    assert_eq!(repository.coordinates().owner().as_str(), "akira-io");
    assert_eq!(repository.coordinates().name().as_str(), "core");
    assert_eq!(repository.visibility(), &Visibility::Public);
    assert_eq!(repository.lifecycle_state(), &LifecycleState::Active);

    Ok(())
}
