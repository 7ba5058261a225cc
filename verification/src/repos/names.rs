//! The names that locate a repository: its owner and its own name.
use vstd::prelude::*;

use super::queries::RepoQueryBuilder;
use super::resources::{
    MissingLifecycleState, MissingVisibility, ProvidedProviderId, RepositoryBuilder,
    RepositoryDraftBuilder, RepositoryDraftView, RepositoryPatchBuilder,
    RepositoryPatchView, Visibility,
};
use crate::registry::ProviderId;
use crate::text::lit;

verus! {

#[derive(Debug, PartialEq, Eq)]
pub struct OwnerName(String);

impl View for OwnerName {
    type V = Seq<char>;

    closed spec fn view(&self) -> Seq<char> {
        self.0@
    }
}

impl Clone for OwnerName {
    fn clone(&self) -> (r: Self)
        ensures
            r@ == self@,
    {
        OwnerName(self.0.clone())
    }
}

impl OwnerName {
    pub fn make(value: &str) -> (r: Self)
        ensures
            r@ == value@,
    {
        OwnerName(lit(value))
    }

    pub fn as_str(&self) -> (r: &str)
        ensures
            r@ == self@,
    {
        self.0.as_str()
    }
}

#[derive(Debug, PartialEq, Eq)]
pub struct RepositoryName(String);

impl View for RepositoryName {
    type V = Seq<char>;

    closed spec fn view(&self) -> Seq<char> {
        self.0@
    }
}

impl Clone for RepositoryName {
    fn clone(&self) -> (r: Self)
        ensures
            r@ == self@,
    {
        RepositoryName(self.0.clone())
    }
}

impl RepositoryName {
    pub fn make(value: &str) -> (r: Self)
        ensures
            r@ == value@,
    {
        RepositoryName(lit(value))
    }

    pub fn as_str(&self) -> (r: &str)
        ensures
            r@ == self@,
    {
        self.0.as_str()
    }
}

/// A repository located by its owner and name.
#[derive(Debug, PartialEq, Eq)]
pub struct Repo {
    owner: OwnerName,
    name: RepositoryName,
}

pub struct RepoView {
    pub owner: Seq<char>,
    pub name: Seq<char>,
}

impl View for Repo {
    type V = RepoView;

    closed spec fn view(&self) -> RepoView {
        RepoView { owner: self.owner@, name: self.name@ }
    }
}

impl Clone for Repo {
    fn clone(&self) -> (r: Self)
        ensures
            r@ == self@,
    {
        Repo { owner: self.owner.clone(), name: self.name.clone() }
    }
}

impl Repo {
    pub fn make() -> (r: RepoBuilder<MissingOwnerName, MissingRepositoryName>) {
        repo()
    }

    pub fn owner(&self) -> (r: &OwnerName)
        ensures
            r@ == self@.owner,
    {
        &self.owner
    }

    pub fn name(&self) -> (r: &RepositoryName)
        ensures
            r@ == self@.name,
    {
        &self.name
    }

    /// A draft for creating this repository, private unless told otherwise.
    pub fn draft(&self) -> (r: RepositoryDraftBuilder)
        ensures
            r@ == (RepositoryDraftView {
                repo: self@,
                visibility: Visibility::Private,
                description: None,
            }),
    {
        RepositoryDraftBuilder::make(self.clone())
    }

    /// A patch of this repository that changes nothing yet.
    pub fn patch(&self) -> (r: RepositoryPatchBuilder)
        ensures
            r@ == (RepositoryPatchView { repo: self@, visibility: None, description: None }),
    {
        RepositoryPatchBuilder::make(self.clone())
    }
}

#[derive(Clone, Debug, PartialEq, Eq)]
pub struct MissingOwnerName;

#[derive(Clone, Debug, PartialEq, Eq)]
pub struct ProvidedOwnerName {
    pub owner_name: OwnerName,
}

#[derive(Clone, Debug, PartialEq, Eq)]
pub struct MissingRepositoryName;

#[derive(Clone, Debug, PartialEq, Eq)]
pub struct ProvidedRepositoryName {
    pub repository_name: RepositoryName,
}

/// A repository location under construction: the owner and the name are given in
/// either order, and only a builder that has both builds a `Repo`.
#[derive(Clone, Debug, PartialEq, Eq)]
pub struct RepoBuilder<OwnerNameState, RepositoryNameState> {
    pub owner_name: OwnerNameState,
    pub repository_name: RepositoryNameState,
}

/// The entry point of repository locations.
pub fn repo() -> (r: RepoBuilder<MissingOwnerName, MissingRepositoryName>) {
    RepoBuilder { owner_name: MissingOwnerName, repository_name: MissingRepositoryName }
}

impl RepoBuilder<MissingOwnerName, MissingRepositoryName> {
    pub fn query(self) -> (r: RepoQueryBuilder) {
        RepoQueryBuilder
    }
}

impl<RepositoryNameState> RepoBuilder<MissingOwnerName, RepositoryNameState> {
    pub fn owner(self, owner_name: &str) -> (r: RepoBuilder<ProvidedOwnerName, RepositoryNameState>)
        ensures
            r.owner_name.owner_name@ == owner_name@,
            r.repository_name == self.repository_name,
    {
        RepoBuilder {
            owner_name: ProvidedOwnerName { owner_name: OwnerName::make(owner_name) },
            repository_name: self.repository_name,
        }
    }
}

impl<OwnerNameState> RepoBuilder<OwnerNameState, MissingRepositoryName> {
    pub fn name(self, repository_name: &str) -> (r: RepoBuilder<OwnerNameState, ProvidedRepositoryName>)
        ensures
            r.repository_name.repository_name@ == repository_name@,
            r.owner_name == self.owner_name,
    {
        RepoBuilder {
            owner_name: self.owner_name,
            repository_name: ProvidedRepositoryName {
                repository_name: RepositoryName::make(repository_name),
            },
        }
    }
}

/// The repository a complete builder stands for.
pub open spec fn built_repo(b: RepoBuilder<ProvidedOwnerName, ProvidedRepositoryName>) -> RepoView {
    RepoView { owner: b.owner_name.owner_name@, name: b.repository_name.repository_name@ }
}

impl RepoBuilder<ProvidedOwnerName, ProvidedRepositoryName> {
    pub fn build(self) -> (r: Repo)
        ensures
            r@ == built_repo(self),
    {
        self.get()
    }

    pub fn get(self) -> (r: Repo)
        ensures
            r@ == built_repo(self),
    {
        Repo { owner: self.owner_name.owner_name, name: self.repository_name.repository_name }
    }

    /// Starts a repository resource of `provider` at this location.
    pub fn provider(self, provider: &str) -> (r: RepositoryBuilder<
        MissingVisibility,
        MissingLifecycleState,
    >)
        ensures
            r.repo@ == built_repo(self),
            r.provider.0@ == provider@,
    {
        RepositoryBuilder {
            repo: self.get(),
            provider: ProvidedProviderId(ProviderId::make(provider)),
            visibility: MissingVisibility,
            lifecycle_state: MissingLifecycleState,
        }
    }
}

} // verus!
