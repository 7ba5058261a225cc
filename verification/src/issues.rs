//! Issues of a repository: their identity, drafts, patches and list queries.
use vstd::prelude::*;

use crate::repos::resources::{clone_opt_string, opt_str_view};
use crate::repos::{Repo, RepoView};
use crate::text::lit;

pub mod queries;

pub use queries::{IssueListQuery, IssueListQueryBuilder, IssueListQueryView, IssueQueryBuilder};

verus! {

/// The identifier of an issue.
#[derive(Debug, PartialEq, Eq)]
pub struct IssueId(String);

impl View for IssueId {
    type V = Seq<char>;

    closed spec fn view(&self) -> Seq<char> {
        self.0@
    }
}

impl Clone for IssueId {
    fn clone(&self) -> (r: Self)
        ensures
            r@ == self@,
    {
        IssueId(self.0.clone())
    }
}

impl IssueId {
    pub fn make(value: &str) -> (r: Self)
        ensures
            r@ == value@,
    {
        IssueId(lit(value))
    }

    pub fn as_str(&self) -> (r: &str)
        ensures
            r@ == self@,
    {
        self.0.as_str()
    }
}

/// An issue of a repository.
#[derive(Debug, PartialEq, Eq)]
pub struct Issue {
    repo: Repo,
    id: IssueId,
}

pub struct IssueView {
    pub repo: RepoView,
    pub id: Seq<char>,
}

impl View for Issue {
    type V = IssueView;

    closed spec fn view(&self) -> IssueView {
        IssueView { repo: self.repo@, id: self.id@ }
    }
}

impl Clone for Issue {
    fn clone(&self) -> (r: Self)
        ensures
            r@ == self@,
    {
        Issue { repo: self.repo.clone(), id: self.id.clone() }
    }
}

impl Issue {
    pub fn make(repo: Repo, id: IssueId) -> (r: Self)
        ensures
            r@ == (IssueView { repo: repo@, id: id@ }),
    {
        Issue { repo, id }
    }

    pub fn repo(&self) -> (r: &Repo)
        ensures
            r@ == self@.repo,
    {
        &self.repo
    }

    pub fn id(&self) -> (r: &IssueId)
        ensures
            r@ == self@.id,
    {
        &self.id
    }

    /// A patch of this issue that changes nothing yet.
    pub fn patch(&self) -> (r: IssuePatchBuilder)
        ensures
            r@ == (IssuePatchView { issue: self@, title: None, body: None, closed: None }),
    {
        IssuePatchBuilder { issue: self.clone(), title: None, body: None, closed: None }
    }
}

/// An issue to open: its repository, title and optional body.
#[derive(Debug, PartialEq, Eq)]
pub struct IssueDraft {
    repo: Repo,
    title: String,
    body: Option<String>,
}

pub struct IssueDraftView {
    pub repo: RepoView,
    pub title: Seq<char>,
    pub body: Option<Seq<char>>,
}

impl View for IssueDraft {
    type V = IssueDraftView;

    closed spec fn view(&self) -> IssueDraftView {
        IssueDraftView { repo: self.repo@, title: self.title@, body: opt_str_view(self.body) }
    }
}

impl IssueDraft {
    pub fn repo(&self) -> (r: &Repo)
        ensures
            r@ == self@.repo,
    {
        &self.repo
    }

    pub fn title(&self) -> (r: &str)
        ensures
            r@ == self@.title,
    {
        self.title.as_str()
    }

    pub fn body(&self) -> (r: Option<&str>)
        ensures
            match r {
                Some(s) => self@.body == Some(s@),
                None => self@.body is None,
            },
    {
        crate::releases::opt_str(&self.body)
    }
}

/// Changes to an issue: a new title, a new body, closing or reopening it.
#[derive(Debug, PartialEq, Eq)]
pub struct IssuePatch {
    issue: Issue,
    title: Option<String>,
    body: Option<String>,
    closed: Option<bool>,
}

pub struct IssuePatchView {
    pub issue: IssueView,
    pub title: Option<Seq<char>>,
    pub body: Option<Seq<char>>,
    pub closed: Option<bool>,
}

impl View for IssuePatch {
    type V = IssuePatchView;

    closed spec fn view(&self) -> IssuePatchView {
        IssuePatchView {
            issue: self.issue@,
            title: opt_str_view(self.title),
            body: opt_str_view(self.body),
            closed: self.closed,
        }
    }
}

impl IssuePatch {
    pub fn issue(&self) -> (r: &Issue)
        ensures
            r@ == self@.issue,
    {
        &self.issue
    }

    pub fn title(&self) -> (r: Option<&str>)
        ensures
            match r {
                Some(s) => self@.title == Some(s@),
                None => self@.title is None,
            },
    {
        crate::releases::opt_str(&self.title)
    }

    pub fn body(&self) -> (r: Option<&str>)
        ensures
            match r {
                Some(s) => self@.body == Some(s@),
                None => self@.body is None,
            },
    {
        crate::releases::opt_str(&self.body)
    }

    /// `Some(true)` closes the issue, `Some(false)` reopens it.
    pub fn closed(&self) -> (r: Option<bool>)
        ensures
            r == self@.closed,
    {
        self.closed
    }
}

/// A patch of an issue, given change by change.
#[derive(Debug, PartialEq, Eq)]
pub struct IssuePatchBuilder {
    issue: Issue,
    title: Option<String>,
    body: Option<String>,
    closed: Option<bool>,
}

impl View for IssuePatchBuilder {
    type V = IssuePatchView;

    closed spec fn view(&self) -> IssuePatchView {
        IssuePatchView {
            issue: self.issue@,
            title: opt_str_view(self.title),
            body: opt_str_view(self.body),
            closed: self.closed,
        }
    }
}

impl IssuePatchBuilder {
    pub fn title(self, title: &str) -> (r: Self)
        ensures
            r@ == (IssuePatchView { title: Some(title@), ..self@ }),
    {
        IssuePatchBuilder { title: Some(lit(title)), ..self }
    }

    pub fn body(self, body: &str) -> (r: Self)
        ensures
            r@ == (IssuePatchView { body: Some(body@), ..self@ }),
    {
        IssuePatchBuilder { body: Some(lit(body)), ..self }
    }

    pub fn closed(self) -> (r: Self)
        ensures
            r@ == (IssuePatchView { closed: Some(true), ..self@ }),
    {
        IssuePatchBuilder { closed: Some(true), ..self }
    }

    pub fn open(self) -> (r: Self)
        ensures
            r@ == (IssuePatchView { closed: Some(false), ..self@ }),
    {
        IssuePatchBuilder { closed: Some(false), ..self }
    }

    pub fn get(self) -> (r: IssuePatch)
        ensures
            r@ == self@,
    {
        IssuePatch { issue: self.issue, title: self.title, body: self.body, closed: self.closed }
    }
}

/// The repository of an issue is still to be given.
#[derive(Clone, Debug, PartialEq, Eq)]
pub struct MissingIssueRepo;

/// The repository of an issue was given.
#[derive(Debug, PartialEq, Eq)]
pub struct ProvidedIssueRepo {
    pub repo: Repo,
}

/// The identifier of an issue is still to be given.
#[derive(Clone, Debug, PartialEq, Eq)]
pub struct MissingIssueId;

/// The identifier of an issue was given.
#[derive(Debug, PartialEq, Eq)]
pub struct ProvidedIssueId {
    pub id: IssueId,
}

/// The title of an issue draft is still to be given.
#[derive(Clone, Debug, PartialEq, Eq)]
pub struct MissingIssueTitle;

/// The title of an issue draft was given.
#[derive(Debug, PartialEq, Eq)]
pub struct ProvidedIssueTitle {
    pub title: String,
}

/// An issue named piece by piece; the type records what was given.
#[derive(Debug, PartialEq, Eq)]
pub struct IssueBuilder<RepoState, IssueIdState> {
    pub repo: RepoState,
    pub id: IssueIdState,
}

/// An issue with nothing given yet.
pub fn issue() -> (r: IssueBuilder<MissingIssueRepo, MissingIssueId>) {
    IssueBuilder { repo: MissingIssueRepo, id: MissingIssueId }
}

impl IssueBuilder<MissingIssueRepo, MissingIssueId> {
    pub fn query(self) -> (r: IssueQueryBuilder) {
        IssueQueryBuilder
    }

    /// A draft with neither the repository nor the title given.
    pub fn draft(self) -> (r: IssueDraftBuilder<MissingIssueRepo, MissingIssueTitle>)
        ensures
            r.body is None,
    {
        IssueDraftBuilder { repo: MissingIssueRepo, title: MissingIssueTitle, body: None }
    }
}

impl<I> IssueBuilder<MissingIssueRepo, I> {
    pub fn repo(self, repo: Repo) -> (r: IssueBuilder<ProvidedIssueRepo, I>)
        ensures
            r.repo.repo@ == repo@,
            r.id == self.id,
    {
        IssueBuilder { repo: ProvidedIssueRepo { repo }, id: self.id }
    }
}

impl<R> IssueBuilder<R, MissingIssueId> {
    pub fn id(self, id: &str) -> (r: IssueBuilder<R, ProvidedIssueId>)
        ensures
            r.id.id@ == id@,
            r.repo == self.repo,
    {
        IssueBuilder { repo: self.repo, id: ProvidedIssueId { id: IssueId::make(id) } }
    }
}

impl IssueBuilder<ProvidedIssueRepo, ProvidedIssueId> {
    pub fn build(self) -> (r: Issue)
        ensures
            r@ == (IssueView { repo: self.repo.repo@, id: self.id.id@ }),
    {
        Issue { repo: self.repo.repo, id: self.id.id }
    }
}

/// An issue draft given piece by piece.
#[derive(Debug, PartialEq, Eq)]
pub struct IssueDraftBuilder<RepoState, TitleState> {
    pub repo: RepoState,
    pub title: TitleState,
    pub body: Option<String>,
}

impl<T> IssueDraftBuilder<MissingIssueRepo, T> {
    pub fn repo(self, repo: Repo) -> (r: IssueDraftBuilder<ProvidedIssueRepo, T>)
        ensures
            r.repo.repo@ == repo@,
            r.title == self.title,
            r.body == self.body,
    {
        IssueDraftBuilder { repo: ProvidedIssueRepo { repo }, title: self.title, body: self.body }
    }
}

impl<R> IssueDraftBuilder<R, MissingIssueTitle> {
    pub fn title(self, title: &str) -> (r: IssueDraftBuilder<R, ProvidedIssueTitle>)
        ensures
            r.title.title@ == title@,
            r.repo == self.repo,
            r.body == self.body,
    {
        IssueDraftBuilder { repo: self.repo, title: ProvidedIssueTitle { title: lit(title) }, body: self.body }
    }
}

impl<R, T> IssueDraftBuilder<R, T> {
    pub fn body(self, body: &str) -> (r: Self)
        ensures
            opt_str_view(r.body) == Some(body@),
            r.repo == self.repo,
            r.title == self.title,
    {
        IssueDraftBuilder { body: Some(lit(body)), ..self }
    }
}

impl IssueDraftBuilder<ProvidedIssueRepo, ProvidedIssueTitle> {
    pub fn get(self) -> (r: IssueDraft)
        ensures
            r@ == (IssueDraftView {
                repo: self.repo.repo@,
                title: self.title.title@,
                body: opt_str_view(self.body),
            }),
    {
        IssueDraft { repo: self.repo.repo, title: self.title.title, body: self.body }
    }
}

} // verus!
