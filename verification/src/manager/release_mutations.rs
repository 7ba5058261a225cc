//! Updating a managed release.
use vstd::prelude::*;

use super::releases::{ManagedRelease, ManagedReleaseBuilder};
use super::ManagedReleaseProvider;
use crate::http::Request;
use crate::releases::{ProvidedReleaseId, ProvidedReleaseRepo, ReleasePatch, ReleasePatchView, ReleaseView};
use crate::repos::resources::opt_str_view;
use crate::text::lit;

verus! {

/// An update of a managed release, given change by change.
pub struct ManagedReleaseUpdateBuilder<Driver> {
    pub managed_release: ManagedRelease<Driver>,
    pub name: Option<String>,
    pub body: Option<String>,
}

impl<Driver> View for ManagedReleaseUpdateBuilder<Driver> {
    type V = ReleasePatchView;

    closed spec fn view(&self) -> ReleasePatchView {
        ReleasePatchView {
            release: self.managed_release.release@,
            name: opt_str_view(self.name),
            body: opt_str_view(self.body),
        }
    }
}

impl<Driver: ManagedReleaseProvider> ManagedReleaseBuilder<Driver, ProvidedReleaseRepo, ProvidedReleaseId> {
    pub fn name(self, name: &str) -> (r: ManagedReleaseUpdateBuilder<Driver>)
        ensures
            r@ == (ReleasePatchView {
                release: ReleaseView { repo: self.release.repo.repo@, id: self.release.id.id@ },
                name: Some(name@),
                body: None,
            }),
    {
        self.get().name(name)
    }

    pub fn body(self, body: &str) -> (r: ManagedReleaseUpdateBuilder<Driver>)
        ensures
            r@ == (ReleasePatchView {
                release: ReleaseView { repo: self.release.repo.repo@, id: self.release.id.id@ },
                name: None,
                body: Some(body@),
            }),
    {
        self.get().body(body)
    }
}

impl<Driver: ManagedReleaseProvider> ManagedRelease<Driver> {
    pub fn name(self, name: &str) -> (r: ManagedReleaseUpdateBuilder<Driver>)
        ensures
            r.managed_release == self,
            r@ == (ReleasePatchView { release: self.release@, name: Some(name@), body: None }),
    {
        ManagedReleaseUpdateBuilder::make(self).name(name)
    }

    pub fn body(self, body: &str) -> (r: ManagedReleaseUpdateBuilder<Driver>)
        ensures
            r.managed_release == self,
            r@ == (ReleasePatchView { release: self.release@, name: None, body: Some(body@) }),
    {
        ManagedReleaseUpdateBuilder::make(self).body(body)
    }
}

impl<Driver: ManagedReleaseProvider> ManagedReleaseUpdateBuilder<Driver> {
    pub fn make(managed_release: ManagedRelease<Driver>) -> (r: Self)
        ensures
            r.managed_release == managed_release,
            r@ == (ReleasePatchView { release: managed_release.release@, name: None, body: None }),
    {
        ManagedReleaseUpdateBuilder { managed_release, name: None, body: None }
    }

    pub fn name(self, name: &str) -> (r: Self)
        ensures
            r.managed_release == self.managed_release,
            r@ == (ReleasePatchView { name: Some(name@), ..self@ }),
    {
        ManagedReleaseUpdateBuilder { name: Some(lit(name)), ..self }
    }

    pub fn body(self, body: &str) -> (r: Self)
        ensures
            r.managed_release == self.managed_release,
            r@ == (ReleasePatchView { body: Some(body@), ..self@ }),
    {
        ManagedReleaseUpdateBuilder { body: Some(lit(body)), ..self }
    }

    /// The patch the update asks for.
    pub fn patch(&self) -> (r: ReleasePatch)
        ensures
            r@ == self@,
    {
        let mut patch = self.managed_release.release.patch();
        if let Some(n) = &self.name {
            patch = patch.name(n.as_str());
        }
        if let Some(b) = &self.body {
            patch = patch.body(b.as_str());
        }
        patch.get()
    }

    /// The driver's request that applies `patch()`.
    pub fn update(self) -> (r: Request)
        ensures
            exists|p: ReleasePatch|
                p@ == self@ && call_ensures(
                    Driver::release_update_request,
                    (&self.managed_release.manager.driver, &p),
                    r,
                ),
    {
        let patch = self.patch();
        self.managed_release.manager.driver.release_update_request(&patch)
    }
}

} // verus!
