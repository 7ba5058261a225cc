//! Patches of releases.
use vstd::prelude::*;

use super::{Release, ReleasePatch, ReleasePatchView};
use crate::repos::resources::opt_str_view;
use crate::text::lit;

verus! {

/// A patch of a release, given change by change.
#[derive(Debug, PartialEq, Eq)]
pub struct ReleasePatchBuilder {
    release: Release,
    name: Option<String>,
    body: Option<String>,
}

impl View for ReleasePatchBuilder {
    type V = ReleasePatchView;

    closed spec fn view(&self) -> ReleasePatchView {
        ReleasePatchView {
            release: self.release@,
            name: opt_str_view(self.name),
            body: opt_str_view(self.body),
        }
    }
}

impl ReleasePatchBuilder {
    pub fn make(release: Release) -> (r: Self)
        ensures
            r@ == (ReleasePatchView { release: release@, name: None, body: None }),
    {
        ReleasePatchBuilder { release, name: None, body: None }
    }

    pub fn name(self, name: &str) -> (r: Self)
        ensures
            r@ == (ReleasePatchView { name: Some(name@), ..self@ }),
    {
        ReleasePatchBuilder { name: Some(lit(name)), ..self }
    }

    pub fn body(self, body: &str) -> (r: Self)
        ensures
            r@ == (ReleasePatchView { body: Some(body@), ..self@ }),
    {
        ReleasePatchBuilder { body: Some(lit(body)), ..self }
    }

    pub fn build(self) -> (r: ReleasePatch)
        ensures
            r@ == self@,
    {
        self.get()
    }

    pub fn get(self) -> (r: ReleasePatch)
        ensures
            r@ == self@,
    {
        ReleasePatch::make(self.release, self.name, self.body)
    }
}

} // verus!
