//! Pipelines (continuous-integration runs) of a repository: their identity and list
//! queries.
use vstd::prelude::*;

use crate::repos::{Repo, RepoView};
use crate::text::lit;

pub mod queries;
pub mod scoped;
pub mod transport;

pub use queries::{PipelineListQuery, PipelineListQueryBuilder, PipelineListQueryView, PipelineQueryBuilder};

verus! {

/// The identifier of a pipeline.
#[derive(Debug, PartialEq, Eq)]
pub struct PipelineId(String);

impl View for PipelineId {
    type V = Seq<char>;

    closed spec fn view(&self) -> Seq<char> {
        self.0@
    }
}

impl Clone for PipelineId {
    fn clone(&self) -> (r: Self)
        ensures
            r@ == self@,
    {
        PipelineId(self.0.clone())
    }
}

impl PipelineId {
    pub fn make(value: &str) -> (r: Self)
        ensures
            r@ == value@,
    {
        PipelineId(lit(value))
    }

    pub fn as_str(&self) -> (r: &str)
        ensures
            r@ == self@,
    {
        self.0.as_str()
    }
}

/// A pipeline of a repository.
#[derive(Debug, PartialEq, Eq)]
pub struct Pipeline {
    repo: Repo,
    id: PipelineId,
}

pub struct PipelineView {
    pub repo: RepoView,
    pub id: Seq<char>,
}

impl View for Pipeline {
    type V = PipelineView;

    closed spec fn view(&self) -> PipelineView {
        PipelineView { repo: self.repo@, id: self.id@ }
    }
}

impl Clone for Pipeline {
    fn clone(&self) -> (r: Self)
        ensures
            r@ == self@,
    {
        Pipeline { repo: self.repo.clone(), id: self.id.clone() }
    }
}

impl Pipeline {
    /// A builder with neither the repository nor the identifier given.
    pub fn builder() -> (r: PipelineBuilder<MissingPipelineRepo, MissingPipelineId>) {
        PipelineBuilder { repo: MissingPipelineRepo, id: MissingPipelineId }
    }

    pub fn make(repo: Repo, id: PipelineId) -> (r: Self)
        ensures
            r@ == (PipelineView { repo: repo@, id: id@ }),
    {
        Pipeline { repo, id }
    }

    pub fn repo(&self) -> (r: &Repo)
        ensures
            r@ == self@.repo,
    {
        &self.repo
    }

    pub fn id(&self) -> (r: &PipelineId)
        ensures
            r@ == self@.id,
    {
        &self.id
    }
}

/// The repository of a pipeline is still to be given.
#[derive(Clone, Debug, PartialEq, Eq)]
pub struct MissingPipelineRepo;

/// The repository of a pipeline was given.
#[derive(Debug, PartialEq, Eq)]
pub struct ProvidedPipelineRepo {
    pub repo: Repo,
}

/// The identifier of a pipeline is still to be given.
#[derive(Clone, Debug, PartialEq, Eq)]
pub struct MissingPipelineId;

/// The identifier of a pipeline was given.
#[derive(Debug, PartialEq, Eq)]
pub struct ProvidedPipelineId {
    pub id: PipelineId,
}

/// A pipeline named piece by piece; the type records what was given.
#[derive(Debug, PartialEq, Eq)]
pub struct PipelineBuilder<RepoState, PipelineIdState> {
    pub repo: RepoState,
    pub id: PipelineIdState,
}

impl<PipelineIdState> PipelineBuilder<MissingPipelineRepo, PipelineIdState> {
    pub fn repo(self, repo: Repo) -> (r: PipelineBuilder<ProvidedPipelineRepo, PipelineIdState>)
        ensures
            r.repo.repo@ == repo@,
            r.id == self.id,
    {
        PipelineBuilder { repo: ProvidedPipelineRepo { repo }, id: self.id }
    }
}

impl<RepoState> PipelineBuilder<RepoState, MissingPipelineId> {
    pub fn id(self, id: &str) -> (r: PipelineBuilder<RepoState, ProvidedPipelineId>)
        ensures
            r.id.id@ == id@,
            r.repo == self.repo,
    {
        PipelineBuilder { repo: self.repo, id: ProvidedPipelineId { id: PipelineId::make(id) } }
    }
}

impl PipelineBuilder<ProvidedPipelineRepo, ProvidedPipelineId> {
    pub fn build(self) -> (r: Pipeline)
        ensures
            r@ == (PipelineView { repo: self.repo.repo@, id: self.id.id@ }),
    {
        self.get()
    }

    pub fn get(self) -> (r: Pipeline)
        ensures
            r@ == (PipelineView { repo: self.repo.repo@, id: self.id.id@ }),
    {
        Pipeline { repo: self.repo.repo, id: self.id.id }
    }
}

impl PipelineBuilder<MissingPipelineRepo, MissingPipelineId> {
    pub fn query(self) -> (r: PipelineQueryBuilder) {
        PipelineQueryBuilder
    }
}

/// A pipeline builder with nothing given yet.
pub fn pipeline() -> (r: PipelineBuilder<MissingPipelineRepo, MissingPipelineId>) {
    Pipeline::builder()
}

} // verus!
