//! Drafts of releases, given piece by piece.
use vstd::prelude::*;

use super::{MissingReleaseRepo, ProvidedReleaseRepo, ReleaseDraft, ReleaseDraftView};
use crate::repos::resources::opt_str_view;
use crate::repos::Repo;
use crate::text::lit;

verus! {

/// A release draft whose repository and tag may still be missing.
#[derive(Debug, PartialEq, Eq)]
pub struct ReleaseDraftBuilder<RepoState, TagState> {
    pub repo: RepoState,
    pub tag: TagState,
    pub name: Option<String>,
    pub body: Option<String>,
}

/// The tag is still to be given.
#[derive(Clone, Debug, PartialEq, Eq)]
pub struct MissingReleaseTag;

/// The tag was given.
#[derive(Debug, PartialEq, Eq)]
pub struct ProvidedReleaseTag {
    pub tag: String,
}

impl<TagState> ReleaseDraftBuilder<MissingReleaseRepo, TagState> {
    pub fn repo(self, repo: Repo) -> (r: ReleaseDraftBuilder<ProvidedReleaseRepo, TagState>)
        ensures
            r.repo.repo@ == repo@,
            r.tag == self.tag,
            r.name == self.name,
            r.body == self.body,
    {
        ReleaseDraftBuilder {
            repo: ProvidedReleaseRepo { repo },
            tag: self.tag,
            name: self.name,
            body: self.body,
        }
    }
}

impl<RepoState> ReleaseDraftBuilder<RepoState, MissingReleaseTag> {
    pub fn tag(self, tag: &str) -> (r: ReleaseDraftBuilder<RepoState, ProvidedReleaseTag>)
        ensures
            r.tag.tag@ == tag@,
            r.repo == self.repo,
            r.name == self.name,
            r.body == self.body,
    {
        ReleaseDraftBuilder {
            repo: self.repo,
            tag: ProvidedReleaseTag { tag: lit(tag) },
            name: self.name,
            body: self.body,
        }
    }
}

impl<RepoState, TagState> ReleaseDraftBuilder<RepoState, TagState> {
    pub fn name(self, name: &str) -> (r: Self)
        ensures
            opt_str_view(r.name) == Some(name@),
            r.repo == self.repo,
            r.tag == self.tag,
            r.body == self.body,
    {
        ReleaseDraftBuilder { name: Some(lit(name)), ..self }
    }

    pub fn body(self, body: &str) -> (r: Self)
        ensures
            opt_str_view(r.body) == Some(body@),
            r.repo == self.repo,
            r.tag == self.tag,
            r.name == self.name,
    {
        ReleaseDraftBuilder { body: Some(lit(body)), ..self }
    }
}

impl ReleaseDraftBuilder<ProvidedReleaseRepo, ProvidedReleaseTag> {
    pub fn build(self) -> (r: ReleaseDraft)
        ensures
            r@ == (ReleaseDraftView {
                repo: self.repo.repo@,
                tag: self.tag.tag@,
                name: opt_str_view(self.name),
                body: opt_str_view(self.body),
            }),
    {
        self.get()
    }

    pub fn get(self) -> (r: ReleaseDraft)
        ensures
            r@ == (ReleaseDraftView {
                repo: self.repo.repo@,
                tag: self.tag.tag@,
                name: opt_str_view(self.name),
                body: opt_str_view(self.body),
            }),
    {
        ReleaseDraft::make(self.repo.repo, self.tag.tag, self.name, self.body)
    }
}

} // verus!
