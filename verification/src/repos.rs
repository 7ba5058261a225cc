//! Repositories: their names, resources and queries.
pub mod names;
pub mod operations;
pub mod queries;
pub mod resources;
pub mod transport;

pub use names::{
    repo, MissingOwnerName, MissingRepositoryName, OwnerName, ProvidedOwnerName,
    ProvidedRepositoryName, Repo, RepoBuilder, RepoView, RepositoryName,
};
pub use queries::{
    RepoQueryBuilder, RepositoryListQuery, RepositoryListQueryBuilder, RepositorySearchQuery,
    RepositorySearchQueryBuilder, RepositorySearchQueryView,
};
pub use resources::{
    Branch, BranchDraft, BranchDraftView, Commit, LifecycleState, MissingLifecycleState,
    MissingVisibility, ProvidedLifecycleState, ProvidedProviderId, ProvidedVisibility, Repository,
    RepositoryBuilder, RepositoryDraft, RepositoryDraftBuilder, RepositoryDraftView,
    RepositoryPatch, RepositoryPatchBuilder, RepositoryPatchView, RepositoryView, Visibility,
};
