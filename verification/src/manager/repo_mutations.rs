//! Updating a managed repository.
use vstd::prelude::*;

use super::repos::ManagedRepo;
use super::ManagedProvider;
use crate::http::Request;
use crate::repos::resources::{
    opt_str_view, RepositoryPatch, RepositoryPatchBuilder, RepositoryPatchView,
};
use crate::repos::Visibility;
use crate::text::lit;

verus! {

/// An update of a managed repository, given change by change.
pub struct ManagedRepositoryUpdateBuilder<Driver> {
    pub managed_repo: ManagedRepo<Driver>,
    pub visibility: Option<Visibility>,
    pub description: Option<String>,
}

impl<Driver> View for ManagedRepositoryUpdateBuilder<Driver> {
    type V = RepositoryPatchView;

    closed spec fn view(&self) -> RepositoryPatchView {
        RepositoryPatchView {
            repo: self.managed_repo.repo@,
            visibility: self.visibility,
            description: opt_str_view(self.description),
        }
    }
}

impl<Driver: ManagedProvider> ManagedRepo<Driver> {
    pub fn visibility(self, visibility: Visibility) -> (r: ManagedRepositoryUpdateBuilder<Driver>)
        ensures
            r.managed_repo == self,
            r@ == (RepositoryPatchView { repo: self.repo@, visibility: Some(visibility), description: None }),
    {
        ManagedRepositoryUpdateBuilder::make(self).visibility(visibility)
    }

    pub fn description(self, description: &str) -> (r: ManagedRepositoryUpdateBuilder<Driver>)
        ensures
            r.managed_repo == self,
            r@ == (RepositoryPatchView { repo: self.repo@, visibility: None, description: Some(description@) }),
    {
        ManagedRepositoryUpdateBuilder::make(self).description(description)
    }
}

impl<Driver: ManagedProvider> ManagedRepositoryUpdateBuilder<Driver> {
    pub fn make(managed_repo: ManagedRepo<Driver>) -> (r: Self)
        ensures
            r.managed_repo == managed_repo,
            r@ == (RepositoryPatchView { repo: managed_repo.repo@, visibility: None, description: None }),
    {
        ManagedRepositoryUpdateBuilder { managed_repo, visibility: None, description: None }
    }

    pub fn visibility(self, visibility: Visibility) -> (r: Self)
        ensures
            r.managed_repo == self.managed_repo,
            r@ == (RepositoryPatchView { visibility: Some(visibility), ..self@ }),
    {
        ManagedRepositoryUpdateBuilder { visibility: Some(visibility), ..self }
    }

    pub fn description(self, description: &str) -> (r: Self)
        ensures
            r.managed_repo == self.managed_repo,
            r@ == (RepositoryPatchView { description: Some(description@), ..self@ }),
    {
        ManagedRepositoryUpdateBuilder { description: Some(lit(description)), ..self }
    }

    /// The patch the update asks for.
    pub fn patch(&self) -> (r: RepositoryPatch)
        ensures
            r@ == self@,
    {
        let mut patch = RepositoryPatchBuilder::make(self.managed_repo.repo.clone());
        if let Some(v) = self.visibility {
            patch = patch.visibility(v);
        }
        if let Some(d) = &self.description {
            patch = patch.description(d.as_str());
        }
        patch.get()
    }

    /// The driver's request that applies `patch()`.
    pub fn update(self) -> (r: Request)
        ensures
            exists|p: RepositoryPatch|
                p@ == self@ && call_ensures(
                    Driver::repo_update_request,
                    (&self.managed_repo.manager.driver, &p),
                    r,
                ),
    {
        let patch = self.patch();
        self.managed_repo.manager.driver.repo_update_request(&patch)
    }
}

} // verus!
