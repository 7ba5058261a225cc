//! Code reviews (pull or merge requests) of a repository: their identity, drafts,
//! patches and list queries.
use vstd::prelude::*;

use crate::repos::resources::{clone_opt_string, opt_str_view};
use crate::repos::{Repo, RepoView};
use crate::text::lit;

pub mod queries;

pub use queries::{CodeReviewListQuery, CodeReviewListQueryBuilder, CodeReviewListQueryView, CodeReviewQueryBuilder};

verus! {

/// The identifier of a code review.
#[derive(Debug, PartialEq, Eq)]
pub struct CodeReviewId(String);

impl View for CodeReviewId {
    type V = Seq<char>;

    closed spec fn view(&self) -> Seq<char> {
        self.0@
    }
}

impl Clone for CodeReviewId {
    fn clone(&self) -> (r: Self)
        ensures
            r@ == self@,
    {
        CodeReviewId(self.0.clone())
    }
}

impl CodeReviewId {
    pub fn make(value: &str) -> (r: Self)
        ensures
            r@ == value@,
    {
        CodeReviewId(lit(value))
    }

    pub fn as_str(&self) -> (r: &str)
        ensures
            r@ == self@,
    {
        self.0.as_str()
    }
}

/// A code review of a repository.
#[derive(Debug, PartialEq, Eq)]
pub struct CodeReview {
    repo: Repo,
    id: CodeReviewId,
}

pub struct CodeReviewView {
    pub repo: RepoView,
    pub id: Seq<char>,
}

impl View for CodeReview {
    type V = CodeReviewView;

    closed spec fn view(&self) -> CodeReviewView {
        CodeReviewView { repo: self.repo@, id: self.id@ }
    }
}

impl Clone for CodeReview {
    fn clone(&self) -> (r: Self)
        ensures
            r@ == self@,
    {
        CodeReview { repo: self.repo.clone(), id: self.id.clone() }
    }
}

impl CodeReview {
    pub fn make(repo: Repo, id: CodeReviewId) -> (r: Self)
        ensures
            r@ == (CodeReviewView { repo: repo@, id: id@ }),
    {
        CodeReview { repo, id }
    }

    pub fn repo(&self) -> (r: &Repo)
        ensures
            r@ == self@.repo,
    {
        &self.repo
    }

    pub fn id(&self) -> (r: &CodeReviewId)
        ensures
            r@ == self@.id,
    {
        &self.id
    }

    /// A patch of this code review that changes nothing yet.
    pub fn patch(&self) -> (r: CodeReviewPatchBuilder)
        ensures
            r@ == (CodeReviewPatchView { code_review: self@, title: None, body: None, closed: None }),
    {
        CodeReviewPatchBuilder { code_review: self.clone(), title: None, body: None, closed: None }
    }
}

/// A code review to open: its repository, title and optional body.
#[derive(Debug, PartialEq, Eq)]
pub struct CodeReviewDraft {
    repo: Repo,
    title: String,
    source: Option<String>,
    target: Option<String>,
    body: Option<String>,
}

pub struct CodeReviewDraftView {
    pub repo: RepoView,
    pub title: Seq<char>,
    pub source: Option<Seq<char>>,
    pub target: Option<Seq<char>>,
    pub body: Option<Seq<char>>,
}

impl View for CodeReviewDraft {
    type V = CodeReviewDraftView;

    closed spec fn view(&self) -> CodeReviewDraftView {
        CodeReviewDraftView {
            repo: self.repo@,
            title: self.title@,
            source: opt_str_view(self.source),
            target: opt_str_view(self.target),
            body: opt_str_view(self.body),
        }
    }
}

impl CodeReviewDraft {
    pub fn repo(&self) -> (r: &Repo)
        ensures
            r@ == self@.repo,
    {
        &self.repo
    }

    pub fn title(&self) -> (r: &str)
        ensures
            r@ == self@.title,
    {
        self.title.as_str()
    }

    pub fn body(&self) -> (r: Option<&str>)
        ensures
            match r {
                Some(s) => self@.body == Some(s@),
                None => self@.body is None,
            },
    {
        crate::releases::opt_str(&self.body)
    }
}

/// Changes to a code review: a new title, a new body, closing or reopening it.
#[derive(Debug, PartialEq, Eq)]
pub struct CodeReviewPatch {
    code_review: CodeReview,
    title: Option<String>,
    body: Option<String>,
    closed: Option<bool>,
}

pub struct CodeReviewPatchView {
    pub code_review: CodeReviewView,
    pub title: Option<Seq<char>>,
    pub body: Option<Seq<char>>,
    pub closed: Option<bool>,
}

impl View for CodeReviewPatch {
    type V = CodeReviewPatchView;

    closed spec fn view(&self) -> CodeReviewPatchView {
        CodeReviewPatchView {
            code_review: self.code_review@,
            title: opt_str_view(self.title),
            body: opt_str_view(self.body),
            closed: self.closed,
        }
    }
}

impl CodeReviewPatch {
    pub fn code_review(&self) -> (r: &CodeReview)
        ensures
            r@ == self@.code_review,
    {
        &self.code_review
    }

    pub fn title(&self) -> (r: Option<&str>)
        ensures
            match r {
                Some(s) => self@.title == Some(s@),
                None => self@.title is None,
            },
    {
        crate::releases::opt_str(&self.title)
    }

    pub fn body(&self) -> (r: Option<&str>)
        ensures
            match r {
                Some(s) => self@.body == Some(s@),
                None => self@.body is None,
            },
    {
        crate::releases::opt_str(&self.body)
    }

    /// `Some(true)` closes the code review, `Some(false)` reopens it.
    pub fn closed(&self) -> (r: Option<bool>)
        ensures
            r == self@.closed,
    {
        self.closed
    }
}

/// A patch of a code review, given change by change.
#[derive(Debug, PartialEq, Eq)]
pub struct CodeReviewPatchBuilder {
    code_review: CodeReview,
    title: Option<String>,
    body: Option<String>,
    closed: Option<bool>,
}

impl View for CodeReviewPatchBuilder {
    type V = CodeReviewPatchView;

    closed spec fn view(&self) -> CodeReviewPatchView {
        CodeReviewPatchView {
            code_review: self.code_review@,
            title: opt_str_view(self.title),
            body: opt_str_view(self.body),
            closed: self.closed,
        }
    }
}

impl CodeReviewPatchBuilder {
    pub fn title(self, title: &str) -> (r: Self)
        ensures
            r@ == (CodeReviewPatchView { title: Some(title@), ..self@ }),
    {
        CodeReviewPatchBuilder { title: Some(lit(title)), ..self }
    }

    pub fn body(self, body: &str) -> (r: Self)
        ensures
            r@ == (CodeReviewPatchView { body: Some(body@), ..self@ }),
    {
        CodeReviewPatchBuilder { body: Some(lit(body)), ..self }
    }

    pub fn closed(self) -> (r: Self)
        ensures
            r@ == (CodeReviewPatchView { closed: Some(true), ..self@ }),
    {
        CodeReviewPatchBuilder { closed: Some(true), ..self }
    }

    pub fn open(self) -> (r: Self)
        ensures
            r@ == (CodeReviewPatchView { closed: Some(false), ..self@ }),
    {
        CodeReviewPatchBuilder { closed: Some(false), ..self }
    }

    pub fn get(self) -> (r: CodeReviewPatch)
        ensures
            r@ == self@,
    {
        CodeReviewPatch { code_review: self.code_review, title: self.title, body: self.body, closed: self.closed }
    }
}

/// The repository of a code review is still to be given.
#[derive(Clone, Debug, PartialEq, Eq)]
pub struct MissingCodeReviewRepo;

/// The repository of a code review was given.
#[derive(Debug, PartialEq, Eq)]
pub struct ProvidedCodeReviewRepo {
    pub repo: Repo,
}

/// The identifier of a code review is still to be given.
#[derive(Clone, Debug, PartialEq, Eq)]
pub struct MissingCodeReviewId;

/// The identifier of a code review was given.
#[derive(Debug, PartialEq, Eq)]
pub struct ProvidedCodeReviewId {
    pub id: CodeReviewId,
}

/// The repository of a code review draft is still to be given.
#[derive(Clone, Debug, PartialEq, Eq)]
pub struct MissingCodeReviewDraftRepo;

/// The repository of a code review draft was given.
#[derive(Debug, PartialEq, Eq)]
pub struct ProvidedCodeReviewDraftRepo {
    pub repo: Repo,
}

/// The title of a code review draft is still to be given.
#[derive(Clone, Debug, PartialEq, Eq)]
pub struct MissingCodeReviewTitle;

/// The title of a code review draft was given.
#[derive(Debug, PartialEq, Eq)]
pub struct ProvidedCodeReviewTitle {
    pub title: String,
}

/// A code review named piece by piece; the type records what was given.
#[derive(Debug, PartialEq, Eq)]
pub struct CodeReviewBuilder<RepoState, CodeReviewIdState> {
    pub repo: RepoState,
    pub id: CodeReviewIdState,
}

/// A code review with nothing given yet.
pub fn code_review() -> (r: CodeReviewBuilder<MissingCodeReviewRepo, MissingCodeReviewId>) {
    CodeReviewBuilder { repo: MissingCodeReviewRepo, id: MissingCodeReviewId }
}

impl CodeReviewBuilder<MissingCodeReviewRepo, MissingCodeReviewId> {
    pub fn query(self) -> (r: CodeReviewQueryBuilder) {
        CodeReviewQueryBuilder
    }

    /// A draft with neither the repository nor the title given.
    pub fn draft(self) -> (r: CodeReviewDraftBuilder<MissingCodeReviewDraftRepo, MissingCodeReviewTitle>)
        ensures
            r.source is None,
            r.target is None,
            r.body is None,
    {
        CodeReviewDraftBuilder {
            repo: MissingCodeReviewDraftRepo,
            title: MissingCodeReviewTitle,
            source: None,
            target: None,
            body: None,
        }
    }
}

impl<I> CodeReviewBuilder<MissingCodeReviewRepo, I> {
    pub fn repo(self, repo: Repo) -> (r: CodeReviewBuilder<ProvidedCodeReviewRepo, I>)
        ensures
            r.repo.repo@ == repo@,
            r.id == self.id,
    {
        CodeReviewBuilder { repo: ProvidedCodeReviewRepo { repo }, id: self.id }
    }
}

impl<R> CodeReviewBuilder<R, MissingCodeReviewId> {
    pub fn id(self, id: &str) -> (r: CodeReviewBuilder<R, ProvidedCodeReviewId>)
        ensures
            r.id.id@ == id@,
            r.repo == self.repo,
    {
        CodeReviewBuilder { repo: self.repo, id: ProvidedCodeReviewId { id: CodeReviewId::make(id) } }
    }
}

impl CodeReviewBuilder<ProvidedCodeReviewRepo, ProvidedCodeReviewId> {
    pub fn build(self) -> (r: CodeReview)
        ensures
            r@ == (CodeReviewView { repo: self.repo.repo@, id: self.id.id@ }),
    {
        CodeReview { repo: self.repo.repo, id: self.id.id }
    }
}

/// A code review draft given piece by piece: the branch to merge (source), the
/// branch to merge into (target), and an optional body.
#[derive(Debug, PartialEq, Eq)]
pub struct CodeReviewDraftBuilder<RepoState, TitleState> {
    pub repo: RepoState,
    pub title: TitleState,
    pub source: Option<String>,
    pub target: Option<String>,
    pub body: Option<String>,
}

impl<T> CodeReviewDraftBuilder<MissingCodeReviewDraftRepo, T> {
    pub fn repo(self, repo: Repo) -> (r: CodeReviewDraftBuilder<ProvidedCodeReviewDraftRepo, T>)
        ensures
            r.repo.repo@ == repo@,
            r.title == self.title,
            r.source == self.source,
            r.target == self.target,
            r.body == self.body,
    {
        CodeReviewDraftBuilder {
            repo: ProvidedCodeReviewDraftRepo { repo },
            title: self.title,
            source: self.source,
            target: self.target,
            body: self.body,
        }
    }
}

impl<R> CodeReviewDraftBuilder<R, MissingCodeReviewTitle> {
    pub fn title(self, title: &str) -> (r: CodeReviewDraftBuilder<R, ProvidedCodeReviewTitle>)
        ensures
            r.title.title@ == title@,
            r.repo == self.repo,
            r.source == self.source,
            r.target == self.target,
            r.body == self.body,
    {
        CodeReviewDraftBuilder {
            repo: self.repo,
            title: ProvidedCodeReviewTitle { title: lit(title) },
            source: self.source,
            target: self.target,
            body: self.body,
        }
    }
}

impl<R, T> CodeReviewDraftBuilder<R, T> {
    pub fn source(self, source: &str) -> (r: Self)
        ensures
            opt_str_view(r.source) == Some(source@),
            r.repo == self.repo,
            r.title == self.title,
            r.target == self.target,
            r.body == self.body,
    {
        CodeReviewDraftBuilder { source: Some(lit(source)), ..self }
    }

    pub fn target(self, target: &str) -> (r: Self)
        ensures
            opt_str_view(r.target) == Some(target@),
            r.repo == self.repo,
            r.title == self.title,
            r.source == self.source,
            r.body == self.body,
    {
        CodeReviewDraftBuilder { target: Some(lit(target)), ..self }
    }

    pub fn body(self, body: &str) -> (r: Self)
        ensures
            opt_str_view(r.body) == Some(body@),
            r.repo == self.repo,
            r.title == self.title,
            r.source == self.source,
            r.target == self.target,
    {
        CodeReviewDraftBuilder { body: Some(lit(body)), ..self }
    }
}

impl CodeReviewDraftBuilder<ProvidedCodeReviewDraftRepo, ProvidedCodeReviewTitle> {
    pub fn get(self) -> (r: CodeReviewDraft)
        ensures
            r@ == (CodeReviewDraftView {
                repo: self.repo.repo@,
                title: self.title.title@,
                source: opt_str_view(self.source),
                target: opt_str_view(self.target),
                body: opt_str_view(self.body),
            }),
    {
        CodeReviewDraft {
            repo: self.repo.repo,
            title: self.title.title,
            source: self.source,
            target: self.target,
            body: self.body,
        }
    }
}

} // verus!
