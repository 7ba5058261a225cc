//! Repository resources: the repository itself, drafts for creating one, patches for
//! changing one, and branches and commits.
use vstd::prelude::*;

use super::names::{Repo, RepoView};
use crate::registry::ProviderId;
use crate::text::lit;

verus! {

#[derive(Clone, Debug, PartialEq, Eq)]
pub struct MissingVisibility;

#[derive(Clone, Debug, PartialEq, Eq)]
pub struct ProvidedVisibility(pub Visibility);

#[derive(Clone, Debug, PartialEq, Eq)]
pub struct MissingLifecycleState;

#[derive(Clone, Debug, PartialEq, Eq)]
pub struct ProvidedLifecycleState(pub LifecycleState);

#[derive(Clone, Debug, PartialEq, Eq)]
pub struct ProvidedProviderId(pub ProviderId);

/// A repository resource under construction: the visibility and the lifecycle state
/// are given in either order, and only a builder that has both builds a `Repository`.
#[derive(Clone, Debug, PartialEq, Eq)]
pub struct RepositoryBuilder<VisibilityState, LifecycleStateState> {
    pub repo: Repo,
    pub provider: ProvidedProviderId,
    pub visibility: VisibilityState,
    pub lifecycle_state: LifecycleStateState,
}

#[derive(Clone, Copy, Debug, PartialEq, Eq)]
pub enum Visibility {
    Public,
    Private,
    Internal,
}

#[derive(Clone, Copy, Debug, PartialEq, Eq)]
pub enum LifecycleState {
    Active,
    Archived,
    Disabled,
}

#[derive(Debug, PartialEq, Eq)]
pub struct Repository {
    provider: ProviderId,
    repo: Repo,
    visibility: Visibility,
    lifecycle_state: LifecycleState,
}

pub struct RepositoryView {
    pub provider: Seq<char>,
    pub repo: RepoView,
    pub visibility: Visibility,
    pub lifecycle_state: LifecycleState,
}

impl View for Repository {
    type V = RepositoryView;

    closed spec fn view(&self) -> RepositoryView {
        RepositoryView {
            provider: self.provider@,
            repo: self.repo@,
            visibility: self.visibility,
            lifecycle_state: self.lifecycle_state,
        }
    }
}

impl Clone for Repository {
    fn clone(&self) -> (r: Self)
        ensures
            r@ == self@,
    {
        Repository {
            provider: self.provider.clone(),
            repo: self.repo.clone(),
            visibility: self.visibility,
            lifecycle_state: self.lifecycle_state,
        }
    }
}

pub open spec fn opt_str_view(o: Option<String>) -> Option<Seq<char>> {
    match o {
        Some(s) => Some(s@),
        None => None,
    }
}

pub fn opt_as_str(o: &Option<String>) -> (r: Option<&str>)
    ensures
        match r {
            Some(s) => opt_str_view(*o) == Some(s@),
            None => o is None,
        },
{
    match o {
        Some(s) => Some(s.as_str()),
        None => None,
    }
}

pub fn clone_opt_string(o: &Option<String>) -> (r: Option<String>)
    ensures
        opt_str_view(r) == opt_str_view(*o),
{
    match o {
        Some(s) => Some(s.clone()),
        None => None,
    }
}

/// What a new repository is to be.
#[derive(Debug, PartialEq, Eq)]
pub struct RepositoryDraft {
    repo: Repo,
    visibility: Visibility,
    description: Option<String>,
}

pub struct RepositoryDraftView {
    pub repo: RepoView,
    pub visibility: Visibility,
    pub description: Option<Seq<char>>,
}

impl View for RepositoryDraft {
    type V = RepositoryDraftView;

    closed spec fn view(&self) -> RepositoryDraftView {
        RepositoryDraftView {
            repo: self.repo@,
            visibility: self.visibility,
            description: opt_str_view(self.description),
        }
    }
}

impl RepositoryDraft {
    pub fn make(repo: Repo, visibility: Visibility) -> (r: Self)
        ensures
            r@ == (RepositoryDraftView { repo: repo@, visibility, description: None }),
    {
        RepositoryDraft { repo, visibility, description: None }
    }

    pub fn repo(&self) -> (r: &Repo)
        ensures
            r@ == self@.repo,
    {
        &self.repo
    }

    pub fn visibility(&self) -> (r: &Visibility)
        ensures
            *r == self@.visibility,
    {
        &self.visibility
    }

    pub fn description(&self) -> (r: Option<&str>)
        ensures
            match r {
                Some(s) => self@.description == Some(s@),
                None => self@.description is None,
            },
    {
        opt_as_str(&self.description)
    }
}

#[derive(Debug, PartialEq, Eq)]
pub struct RepositoryDraftBuilder {
    repo: Repo,
    visibility: Visibility,
    description: Option<String>,
}

impl View for RepositoryDraftBuilder {
    type V = RepositoryDraftView;

    closed spec fn view(&self) -> RepositoryDraftView {
        RepositoryDraftView {
            repo: self.repo@,
            visibility: self.visibility,
            description: opt_str_view(self.description),
        }
    }
}

impl Clone for RepositoryDraftBuilder {
    fn clone(&self) -> (r: Self)
        ensures
            r@ == self@,
    {
        RepositoryDraftBuilder {
            repo: self.repo.clone(),
            visibility: self.visibility,
            description: clone_opt_string(&self.description),
        }
    }
}

impl RepositoryDraftBuilder {
    /// A draft of `repo`, private unless told otherwise.
    pub fn make(repo: Repo) -> (r: Self)
        ensures
            r@ == (RepositoryDraftView {
                repo: repo@,
                visibility: Visibility::Private,
                description: None,
            }),
    {
        RepositoryDraftBuilder { repo, visibility: Visibility::Private, description: None }
    }

    pub fn visibility(self, visibility: Visibility) -> (r: Self)
        ensures
            r@ == (RepositoryDraftView { visibility, ..self@ }),
    {
        RepositoryDraftBuilder { visibility, ..self }
    }

    pub fn description(self, description: &str) -> (r: Self)
        ensures
            r@ == (RepositoryDraftView { description: Some(description@), ..self@ }),
    {
        RepositoryDraftBuilder { description: Some(lit(description)), ..self }
    }

    pub fn build(self) -> (r: RepositoryDraft)
        ensures
            r@ == self@,
    {
        self.get()
    }

    pub fn get(self) -> (r: RepositoryDraft)
        ensures
            r@ == self@,
    {
        RepositoryDraft {
            repo: self.repo,
            visibility: self.visibility,
            description: self.description,
        }
    }
}

/// What to change of an existing repository: `None` leaves a field as it is.
#[derive(Debug, PartialEq, Eq)]
pub struct RepositoryPatch {
    repo: Repo,
    visibility: Option<Visibility>,
    description: Option<String>,
}

pub struct RepositoryPatchView {
    pub repo: RepoView,
    pub visibility: Option<Visibility>,
    pub description: Option<Seq<char>>,
}

impl View for RepositoryPatch {
    type V = RepositoryPatchView;

    closed spec fn view(&self) -> RepositoryPatchView {
        RepositoryPatchView {
            repo: self.repo@,
            visibility: self.visibility,
            description: opt_str_view(self.description),
        }
    }
}

impl RepositoryPatch {
    pub fn repo(&self) -> (r: &Repo)
        ensures
            r@ == self@.repo,
    {
        &self.repo
    }

    pub fn visibility(&self) -> (r: Option<&Visibility>)
        ensures
            match r {
                Some(v) => self@.visibility == Some(*v),
                None => self@.visibility is None,
            },
    {
        self.visibility.as_ref()
    }

    pub fn description(&self) -> (r: Option<&str>)
        ensures
            match r {
                Some(s) => self@.description == Some(s@),
                None => self@.description is None,
            },
    {
        opt_as_str(&self.description)
    }
}

#[derive(Debug, PartialEq, Eq)]
pub struct RepositoryPatchBuilder {
    repo: Repo,
    visibility: Option<Visibility>,
    description: Option<String>,
}

impl View for RepositoryPatchBuilder {
    type V = RepositoryPatchView;

    closed spec fn view(&self) -> RepositoryPatchView {
        RepositoryPatchView {
            repo: self.repo@,
            visibility: self.visibility,
            description: opt_str_view(self.description),
        }
    }
}

impl Clone for RepositoryPatchBuilder {
    fn clone(&self) -> (r: Self)
        ensures
            r@ == self@,
    {
        RepositoryPatchBuilder {
            repo: self.repo.clone(),
            visibility: self.visibility,
            description: clone_opt_string(&self.description),
        }
    }
}

impl RepositoryPatchBuilder {
    /// A patch of `repo` that changes nothing yet.
    pub fn make(repo: Repo) -> (r: Self)
        ensures
            r@ == (RepositoryPatchView { repo: repo@, visibility: None, description: None }),
    {
        RepositoryPatchBuilder { repo, visibility: None, description: None }
    }

    pub fn visibility(self, visibility: Visibility) -> (r: Self)
        ensures
            r@ == (RepositoryPatchView { visibility: Some(visibility), ..self@ }),
    {
        RepositoryPatchBuilder { visibility: Some(visibility), ..self }
    }

    pub fn description(self, description: &str) -> (r: Self)
        ensures
            r@ == (RepositoryPatchView { description: Some(description@), ..self@ }),
    {
        RepositoryPatchBuilder { description: Some(lit(description)), ..self }
    }

    pub fn build(self) -> (r: RepositoryPatch)
        ensures
            r@ == self@,
    {
        self.get()
    }

    pub fn get(self) -> (r: RepositoryPatch)
        ensures
            r@ == self@,
    {
        RepositoryPatch {
            repo: self.repo,
            visibility: self.visibility,
            description: self.description,
        }
    }
}

impl<LifecycleStateState> RepositoryBuilder<MissingVisibility, LifecycleStateState> {
    pub fn visibility(self, visibility: Visibility) -> (r: RepositoryBuilder<
        ProvidedVisibility,
        LifecycleStateState,
    >)
        ensures
            r.repo@ == self.repo@,
            r.provider.0@ == self.provider.0@,
            r.visibility.0 == visibility,
            r.lifecycle_state == self.lifecycle_state,
    {
        RepositoryBuilder {
            repo: self.repo,
            provider: self.provider,
            visibility: ProvidedVisibility(visibility),
            lifecycle_state: self.lifecycle_state,
        }
    }
}

impl<VisibilityState> RepositoryBuilder<VisibilityState, MissingLifecycleState> {
    pub fn lifecycle(self, lifecycle_state: LifecycleState) -> (r: RepositoryBuilder<
        VisibilityState,
        ProvidedLifecycleState,
    >)
        ensures
            r.repo@ == self.repo@,
            r.provider.0@ == self.provider.0@,
            r.visibility == self.visibility,
            r.lifecycle_state.0 == lifecycle_state,
    {
        RepositoryBuilder {
            repo: self.repo,
            provider: self.provider,
            visibility: self.visibility,
            lifecycle_state: ProvidedLifecycleState(lifecycle_state),
        }
    }
}

/// The repository a complete builder stands for.
pub open spec fn built_repository(
    b: RepositoryBuilder<ProvidedVisibility, ProvidedLifecycleState>,
) -> RepositoryView {
    RepositoryView {
        provider: b.provider.0@,
        repo: b.repo@,
        visibility: b.visibility.0,
        lifecycle_state: b.lifecycle_state.0,
    }
}

impl RepositoryBuilder<ProvidedVisibility, ProvidedLifecycleState> {
    pub fn build(self) -> (r: Repository)
        ensures
            r@ == built_repository(self),
    {
        self.get()
    }

    pub fn get(self) -> (r: Repository)
        ensures
            r@ == built_repository(self),
    {
        Repository {
            provider: self.provider.0,
            repo: self.repo,
            visibility: self.visibility.0,
            lifecycle_state: self.lifecycle_state.0,
        }
    }
}

impl Repository {
    pub fn provider(&self) -> (r: &ProviderId)
        ensures
            r@ == self@.provider,
    {
        &self.provider
    }

    pub fn repo(&self) -> (r: &Repo)
        ensures
            r@ == self@.repo,
    {
        &self.repo
    }

    pub fn visibility(&self) -> (r: &Visibility)
        ensures
            *r == self@.visibility,
    {
        &self.visibility
    }

    pub fn lifecycle_state(&self) -> (r: &LifecycleState)
        ensures
            *r == self@.lifecycle_state,
    {
        &self.lifecycle_state
    }
}

#[derive(Debug, PartialEq, Eq)]
pub struct Branch {
    name: String,
}

impl View for Branch {
    type V = Seq<char>;

    closed spec fn view(&self) -> Seq<char> {
        self.name@
    }
}

impl Clone for Branch {
    fn clone(&self) -> (r: Self)
        ensures
            r@ == self@,
    {
        Branch { name: self.name.clone() }
    }
}

impl Branch {
    pub fn make(name: &str) -> (r: Self)
        ensures
            r@ == name@,
    {
        Branch { name: lit(name) }
    }

    pub fn name(&self) -> (r: &str)
        ensures
            r@ == self@,
    {
        self.name.as_str()
    }
}

#[derive(Debug, PartialEq, Eq)]
pub struct Commit {
    id: String,
}

impl View for Commit {
    type V = Seq<char>;

    closed spec fn view(&self) -> Seq<char> {
        self.id@
    }
}

impl Clone for Commit {
    fn clone(&self) -> (r: Self)
        ensures
            r@ == self@,
    {
        Commit { id: self.id.clone() }
    }
}

impl Commit {
    pub fn make(id: &str) -> (r: Self)
        ensures
            r@ == id@,
    {
        Commit { id: lit(id) }
    }

    /// A commit named by an owned string.
    pub fn from_string(id: String) -> (r: Self)
        ensures
            r@ == id@,
    {
        Commit { id }
    }

    pub fn id(&self) -> (r: &str)
        ensures
            r@ == self@,
    {
        self.id.as_str()
    }
}

/// A branch to create: its repository, name and the commit it starts at.
#[derive(Debug, PartialEq, Eq)]
pub struct BranchDraft {
    repo: Repo,
    name: String,
    sha: String,
}

pub struct BranchDraftView {
    pub repo: RepoView,
    pub name: Seq<char>,
    pub sha: Seq<char>,
}

impl View for BranchDraft {
    type V = BranchDraftView;

    closed spec fn view(&self) -> BranchDraftView {
        BranchDraftView { repo: self.repo@, name: self.name@, sha: self.sha@ }
    }
}

impl BranchDraft {
    pub fn make(repo: Repo, name: String, sha: String) -> (r: Self)
        ensures
            r@ == (BranchDraftView { repo: repo@, name: name@, sha: sha@ }),
    {
        BranchDraft { repo, name, sha }
    }

    pub fn repo(&self) -> (r: &Repo)
        ensures
            r@ == self@.repo,
    {
        &self.repo
    }

    pub fn name(&self) -> (r: &str)
        ensures
            r@ == self@.name,
    {
        self.name.as_str()
    }

    pub fn sha(&self) -> (r: &str)
        ensures
            r@ == self@.sha,
    {
        self.sha.as_str()
    }
}

} // verus!
