pub mod code_reviews;
pub mod error;
pub mod http;
pub mod issues;
pub mod keyed;
pub mod manager;
pub mod middleware;
pub mod organizations;
pub mod local_git;
pub mod text;
pub mod pagination;
pub mod pipelines;
pub mod provider;
pub mod rate_limit;
pub mod registry;
pub mod releases;
pub mod repos;
pub mod repositories;
pub mod retry;
pub mod runtime;

