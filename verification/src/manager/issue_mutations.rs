//! Updating a managed issue.
use vstd::prelude::*;

use super::issues::{ManagedIssue, ManagedIssueBuilder};
use super::ManagedIssueProvider;
use crate::http::Request;
use crate::issues::{IssuePatch, IssuePatchView, IssueView, ProvidedIssueId, ProvidedIssueRepo};
use crate::repos::resources::opt_str_view;
use crate::text::lit;

verus! {

/// An update of a managed issue, given change by change.
pub struct ManagedIssueUpdateBuilder<Driver> {
    pub managed_issue: ManagedIssue<Driver>,
    pub title: Option<String>,
    pub body: Option<String>,
    pub closed: Option<bool>,
}

impl<Driver> View for ManagedIssueUpdateBuilder<Driver> {
    type V = IssuePatchView;

    closed spec fn view(&self) -> IssuePatchView {
        IssuePatchView {
            issue: self.managed_issue.issue@,
            title: opt_str_view(self.title),
            body: opt_str_view(self.body),
            closed: self.closed,
        }
    }
}

pub open spec fn issue_update(issue: IssueView, title: Option<Seq<char>>, body: Option<Seq<char>>, closed: Option<bool>) -> IssuePatchView {
    IssuePatchView { issue, title, body, closed }
}

impl<Driver: ManagedIssueProvider> ManagedIssueBuilder<Driver, ProvidedIssueRepo, ProvidedIssueId> {
    pub fn title(self, title: &str) -> (r: ManagedIssueUpdateBuilder<Driver>)
        ensures
            r@ == issue_update(IssueView { repo: self.issue.repo.repo@, id: self.issue.id.id@ }, Some(title@), None, None),
    {
        self.get().title(title)
    }

    pub fn body(self, body: &str) -> (r: ManagedIssueUpdateBuilder<Driver>)
        ensures
            r@ == issue_update(IssueView { repo: self.issue.repo.repo@, id: self.issue.id.id@ }, None, Some(body@), None),
    {
        self.get().body(body)
    }

    pub fn closed(self) -> (r: ManagedIssueUpdateBuilder<Driver>)
        ensures
            r@ == issue_update(IssueView { repo: self.issue.repo.repo@, id: self.issue.id.id@ }, None, None, Some(true)),
    {
        self.get().closed()
    }

    pub fn open(self) -> (r: ManagedIssueUpdateBuilder<Driver>)
        ensures
            r@ == issue_update(IssueView { repo: self.issue.repo.repo@, id: self.issue.id.id@ }, None, None, Some(false)),
    {
        self.get().open()
    }

    /// The driver's request that closes the issue.
    pub fn close(self) -> (r: Request)
        ensures
            exists|p: IssuePatch|
                p@ == issue_update(
                    IssueView { repo: self.issue.repo.repo@, id: self.issue.id.id@ },
                    None,
                    None,
                    Some(true),
                ) && call_ensures(Driver::issue_close_request, (&self.manager.driver, &p), r),
    {
        self.get().close()
    }
}

impl<Driver: ManagedIssueProvider> ManagedIssue<Driver> {
    pub fn title(self, title: &str) -> (r: ManagedIssueUpdateBuilder<Driver>)
        ensures
            r.managed_issue == self,
            r@ == issue_update(self.issue@, Some(title@), None, None),
    {
        ManagedIssueUpdateBuilder::make(self).title(title)
    }

    pub fn body(self, body: &str) -> (r: ManagedIssueUpdateBuilder<Driver>)
        ensures
            r.managed_issue == self,
            r@ == issue_update(self.issue@, None, Some(body@), None),
    {
        ManagedIssueUpdateBuilder::make(self).body(body)
    }

    pub fn closed(self) -> (r: ManagedIssueUpdateBuilder<Driver>)
        ensures
            r.managed_issue == self,
            r@ == issue_update(self.issue@, None, None, Some(true)),
    {
        ManagedIssueUpdateBuilder::make(self).closed()
    }

    pub fn open(self) -> (r: ManagedIssueUpdateBuilder<Driver>)
        ensures
            r.managed_issue == self,
            r@ == issue_update(self.issue@, None, None, Some(false)),
    {
        ManagedIssueUpdateBuilder::make(self).open()
    }

    /// The driver's request that closes the issue: a patch that closes it and
    /// changes nothing else.
    pub fn close(self) -> (r: Request)
        ensures
            exists|p: IssuePatch|
                p@ == issue_update(self.issue@, None, None, Some(true)) && call_ensures(
                    Driver::issue_close_request,
                    (&self.manager.driver, &p),
                    r,
                ),
    {
        ManagedIssueUpdateBuilder::make(self).closed().close()
    }
}

impl<Driver: ManagedIssueProvider> ManagedIssueUpdateBuilder<Driver> {
    pub fn make(managed_issue: ManagedIssue<Driver>) -> (r: Self)
        ensures
            r.managed_issue == managed_issue,
            r@ == issue_update(managed_issue.issue@, None, None, None),
    {
        ManagedIssueUpdateBuilder { managed_issue, title: None, body: None, closed: None }
    }

    pub fn title(self, title: &str) -> (r: Self)
        ensures
            r.managed_issue == self.managed_issue,
            r@ == (IssuePatchView { title: Some(title@), ..self@ }),
    {
        ManagedIssueUpdateBuilder { title: Some(lit(title)), ..self }
    }

    pub fn body(self, body: &str) -> (r: Self)
        ensures
            r.managed_issue == self.managed_issue,
            r@ == (IssuePatchView { body: Some(body@), ..self@ }),
    {
        ManagedIssueUpdateBuilder { body: Some(lit(body)), ..self }
    }

    pub fn closed(self) -> (r: Self)
        ensures
            r.managed_issue == self.managed_issue,
            r@ == (IssuePatchView { closed: Some(true), ..self@ }),
    {
        ManagedIssueUpdateBuilder { closed: Some(true), ..self }
    }

    pub fn open(self) -> (r: Self)
        ensures
            r.managed_issue == self.managed_issue,
            r@ == (IssuePatchView { closed: Some(false), ..self@ }),
    {
        ManagedIssueUpdateBuilder { closed: Some(false), ..self }
    }

    /// The patch the update asks for.
    pub fn patch(&self) -> (r: IssuePatch)
        ensures
            r@ == self@,
    {
        let mut patch = self.managed_issue.issue.patch();
        if let Some(t) = &self.title {
            patch = patch.title(t.as_str());
        }
        if let Some(b) = &self.body {
            patch = patch.body(b.as_str());
        }
        match self.closed {
            Some(true) => {
                patch = patch.closed();
            },
            Some(false) => {
                patch = patch.open();
            },
            None => {},
        }
        patch.get()
    }

    /// The driver's request that applies `patch()`.
    pub fn update(self) -> (r: Request)
        ensures
            exists|p: IssuePatch|
                p@ == self@ && call_ensures(
                    Driver::issue_update_request,
                    (&self.managed_issue.manager.driver, &p),
                    r,
                ),
    {
        let patch = self.patch();
        self.managed_issue.manager.driver.issue_update_request(&patch)
    }

    /// The driver's request that closes the issue with `patch()`, marked closed.
    pub fn close(self) -> (r: Request)
        ensures
            exists|p: IssuePatch|
                p@ == (IssuePatchView { closed: Some(true), ..self@ }) && call_ensures(
                    Driver::issue_close_request,
                    (&self.managed_issue.manager.driver, &p),
                    r,
                ),
    {
        let closing = ManagedIssueUpdateBuilder { closed: Some(true), ..self };
        let patch = closing.patch();
        closing.managed_issue.manager.driver.issue_close_request(&patch)
    }
}

} // verus!
