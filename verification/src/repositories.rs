//! Repositories named by coordinates (an owner and a name), as every provider
//! describes them.
use vstd::prelude::*;

pub use crate::pagination::Page;
pub use crate::repos::{Branch, Commit, LifecycleState, OwnerName, RepositoryName, Visibility};
use crate::error::{invalid_input, ErrorView, VcsResult};
use crate::registry::ProviderId;
use crate::text::lit;

verus! {

/// Where a repository is: its owner and its name.
#[derive(Debug, PartialEq, Eq)]
pub struct RepositoryCoordinates {
    owner: OwnerName,
    name: RepositoryName,
}

pub struct CoordinatesView {
    pub owner: Seq<char>,
    pub name: Seq<char>,
}

impl View for RepositoryCoordinates {
    type V = CoordinatesView;

    closed spec fn view(&self) -> CoordinatesView {
        CoordinatesView { owner: self.owner@, name: self.name@ }
    }
}

impl Clone for RepositoryCoordinates {
    fn clone(&self) -> (r: Self)
        ensures
            r@ == self@,
    {
        RepositoryCoordinates {
            owner: OwnerName::make(self.owner.as_str()),
            name: RepositoryName::make(self.name.as_str()),
        }
    }
}

impl RepositoryCoordinates {
    /// A builder with neither part given.
    pub fn make() -> (r: RepositoryCoordinatesBuilder)
        ensures
            r@ == (CoordinatesBuilderView { owner: None, name: None }),
    {
        RepositoryCoordinatesBuilder { owner: None, name: None }
    }

    pub fn owner(&self) -> (r: &OwnerName)
        ensures
            r@ == self@.owner,
    {
        &self.owner
    }

    pub fn name(&self) -> (r: &RepositoryName)
        ensures
            r@ == self@.name,
    {
        &self.name
    }
}

/// The coordinates being given.
#[derive(Debug, PartialEq, Eq)]
pub struct RepositoryCoordinatesBuilder {
    owner: Option<OwnerName>,
    name: Option<RepositoryName>,
}

pub struct CoordinatesBuilderView {
    pub owner: Option<Seq<char>>,
    pub name: Option<Seq<char>>,
}

impl View for RepositoryCoordinatesBuilder {
    type V = CoordinatesBuilderView;

    closed spec fn view(&self) -> CoordinatesBuilderView {
        CoordinatesBuilderView {
            owner: match self.owner {
                Some(o) => Some(o@),
                None => None,
            },
            name: match self.name {
                Some(n) => Some(n@),
                None => None,
            },
        }
    }
}

impl Default for RepositoryCoordinatesBuilder {
    fn default() -> (r: Self)
        ensures
            r@ == (CoordinatesBuilderView { owner: None, name: None }),
    {
        RepositoryCoordinatesBuilder { owner: None, name: None }
    }
}

impl RepositoryCoordinatesBuilder {
    pub fn owner_name(self, owner: &str) -> (r: Self)
        ensures
            r@ == (CoordinatesBuilderView { owner: Some(owner@), ..self@ }),
    {
        RepositoryCoordinatesBuilder { owner: Some(OwnerName::make(owner)), ..self }
    }

    pub fn name(self, name: &str) -> (r: Self)
        ensures
            r@ == (CoordinatesBuilderView { name: Some(name@), ..self@ }),
    {
        RepositoryCoordinatesBuilder { name: Some(RepositoryName::make(name)), ..self }
    }

    /// The coordinates; both parts are required, the owner first.
    pub fn build(self) -> (r: VcsResult<RepositoryCoordinates>)
        ensures
            match (self@.owner, self@.name) {
                (Some(o), Some(n)) => r matches Ok(c) && c@ == (CoordinatesView {
                    owner: o,
                    name: n,
                }),
                (None, _) => r matches Err(e) && e@ == ErrorView::InvalidInput(
                    "owner name is required"@,
                ),
                (Some(_), None) => r matches Err(e) && e@ == ErrorView::InvalidInput(
                    "repository name is required"@,
                ),
            },
    {
        let owner = match self.owner {
            Some(o) => o,
            None => {
                return Err(invalid_input("owner name is required"));
            },
        };
        let name = match self.name {
            Some(n) => n,
            None => {
                return Err(invalid_input("repository name is required"));
            },
        };
        Ok(RepositoryCoordinates { owner, name })
    }
}

/// A repository as any provider describes it.
#[derive(Debug, PartialEq, Eq)]
pub struct Repository {
    provider: ProviderId,
    coordinates: RepositoryCoordinates,
    visibility: Visibility,
    lifecycle_state: LifecycleState,
}

pub struct RepositoryView {
    pub provider: Seq<char>,
    pub coordinates: CoordinatesView,
    pub visibility: Visibility,
    pub lifecycle_state: LifecycleState,
}

impl View for Repository {
    type V = RepositoryView;

    closed spec fn view(&self) -> RepositoryView {
        RepositoryView {
            provider: self.provider@,
            coordinates: self.coordinates@,
            visibility: self.visibility,
            lifecycle_state: self.lifecycle_state,
        }
    }
}

impl Clone for Repository {
    fn clone(&self) -> (r: Self)
        ensures
            r@ == self@,
    {
        Repository {
            provider: self.provider.clone(),
            coordinates: self.coordinates.clone(),
            visibility: self.visibility,
            lifecycle_state: self.lifecycle_state,
        }
    }
}

impl Repository {
    pub fn make(
        provider: ProviderId,
        coordinates: RepositoryCoordinates,
        visibility: Visibility,
        lifecycle_state: LifecycleState,
    ) -> (r: Self)
        ensures
            r@ == (RepositoryView {
                provider: provider@,
                coordinates: coordinates@,
                visibility,
                lifecycle_state,
            }),
    {
        Repository { provider, coordinates, visibility, lifecycle_state }
    }

    pub fn provider(&self) -> (r: &ProviderId)
        ensures
            r@ == self@.provider,
    {
        &self.provider
    }

    pub fn coordinates(&self) -> (r: &RepositoryCoordinates)
        ensures
            r@ == self@.coordinates,
    {
        &self.coordinates
    }

    pub fn visibility(&self) -> (r: &Visibility)
        ensures
            *r == self@.visibility,
    {
        &self.visibility
    }

    pub fn lifecycle_state(&self) -> (r: &LifecycleState)
        ensures
            *r == self@.lifecycle_state,
    {
        &self.lifecycle_state
    }
}

/// A listing of repositories.
#[derive(Clone, Copy, Debug, Default, PartialEq, Eq)]
pub struct RepositoryListQuery;

/// A search of repositories by text.
#[derive(Debug, PartialEq, Eq)]
pub struct RepositorySearchQuery {
    text: String,
}

impl View for RepositorySearchQuery {
    type V = Seq<char>;

    closed spec fn view(&self) -> Seq<char> {
        self.text@
    }
}

impl RepositorySearchQuery {
    pub fn make(text: &str) -> (r: Self)
        ensures
            r@ == text@,
    {
        RepositorySearchQuery { text: lit(text) }
    }

    pub fn text(&self) -> (r: &str)
        ensures
            r@ == self@,
    {
        self.text.as_str()
    }
}

} // verus!
