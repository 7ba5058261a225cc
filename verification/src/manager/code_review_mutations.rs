//! Updating a managed code review.
use vstd::prelude::*;

use super::code_reviews::{ManagedCodeReview, ManagedCodeReviewBuilder};
use super::ManagedCodeReviewProvider;
use crate::http::Request;
use crate::code_reviews::{CodeReviewPatch, CodeReviewPatchView, CodeReviewView, ProvidedCodeReviewId, ProvidedCodeReviewRepo};
use crate::repos::resources::opt_str_view;
use crate::text::lit;

verus! {

/// An update of a managed code_review, given change by change.
pub struct ManagedCodeReviewUpdateBuilder<Driver> {
    pub managed_code_review: ManagedCodeReview<Driver>,
    pub title: Option<String>,
    pub body: Option<String>,
    pub closed: Option<bool>,
}

impl<Driver> View for ManagedCodeReviewUpdateBuilder<Driver> {
    type V = CodeReviewPatchView;

    closed spec fn view(&self) -> CodeReviewPatchView {
        CodeReviewPatchView {
            code_review: self.managed_code_review.code_review@,
            title: opt_str_view(self.title),
            body: opt_str_view(self.body),
            closed: self.closed,
        }
    }
}

pub open spec fn code_review_update(code_review: CodeReviewView, title: Option<Seq<char>>, body: Option<Seq<char>>, closed: Option<bool>) -> CodeReviewPatchView {
    CodeReviewPatchView { code_review, title, body, closed }
}

impl<Driver: ManagedCodeReviewProvider> ManagedCodeReviewBuilder<Driver, ProvidedCodeReviewRepo, ProvidedCodeReviewId> {
    pub fn title(self, title: &str) -> (r: ManagedCodeReviewUpdateBuilder<Driver>)
        ensures
            r@ == code_review_update(CodeReviewView { repo: self.code_review.repo.repo@, id: self.code_review.id.id@ }, Some(title@), None, None),
    {
        self.get().title(title)
    }

    pub fn body(self, body: &str) -> (r: ManagedCodeReviewUpdateBuilder<Driver>)
        ensures
            r@ == code_review_update(CodeReviewView { repo: self.code_review.repo.repo@, id: self.code_review.id.id@ }, None, Some(body@), None),
    {
        self.get().body(body)
    }

    pub fn closed(self) -> (r: ManagedCodeReviewUpdateBuilder<Driver>)
        ensures
            r@ == code_review_update(CodeReviewView { repo: self.code_review.repo.repo@, id: self.code_review.id.id@ }, None, None, Some(true)),
    {
        self.get().closed()
    }

    pub fn open(self) -> (r: ManagedCodeReviewUpdateBuilder<Driver>)
        ensures
            r@ == code_review_update(CodeReviewView { repo: self.code_review.repo.repo@, id: self.code_review.id.id@ }, None, None, Some(false)),
    {
        self.get().open()
    }
}

impl<Driver: ManagedCodeReviewProvider> ManagedCodeReview<Driver> {
    pub fn title(self, title: &str) -> (r: ManagedCodeReviewUpdateBuilder<Driver>)
        ensures
            r.managed_code_review == self,
            r@ == code_review_update(self.code_review@, Some(title@), None, None),
    {
        ManagedCodeReviewUpdateBuilder::make(self).title(title)
    }

    pub fn body(self, body: &str) -> (r: ManagedCodeReviewUpdateBuilder<Driver>)
        ensures
            r.managed_code_review == self,
            r@ == code_review_update(self.code_review@, None, Some(body@), None),
    {
        ManagedCodeReviewUpdateBuilder::make(self).body(body)
    }

    pub fn closed(self) -> (r: ManagedCodeReviewUpdateBuilder<Driver>)
        ensures
            r.managed_code_review == self,
            r@ == code_review_update(self.code_review@, None, None, Some(true)),
    {
        ManagedCodeReviewUpdateBuilder::make(self).closed()
    }

    pub fn open(self) -> (r: ManagedCodeReviewUpdateBuilder<Driver>)
        ensures
            r.managed_code_review == self,
            r@ == code_review_update(self.code_review@, None, None, Some(false)),
    {
        ManagedCodeReviewUpdateBuilder::make(self).open()
    }
}

impl<Driver: ManagedCodeReviewProvider> ManagedCodeReviewUpdateBuilder<Driver> {
    pub fn make(managed_code_review: ManagedCodeReview<Driver>) -> (r: Self)
        ensures
            r.managed_code_review == managed_code_review,
            r@ == code_review_update(managed_code_review.code_review@, None, None, None),
    {
        ManagedCodeReviewUpdateBuilder { managed_code_review, title: None, body: None, closed: None }
    }

    pub fn title(self, title: &str) -> (r: Self)
        ensures
            r.managed_code_review == self.managed_code_review,
            r@ == (CodeReviewPatchView { title: Some(title@), ..self@ }),
    {
        ManagedCodeReviewUpdateBuilder { title: Some(lit(title)), ..self }
    }

    pub fn body(self, body: &str) -> (r: Self)
        ensures
            r.managed_code_review == self.managed_code_review,
            r@ == (CodeReviewPatchView { body: Some(body@), ..self@ }),
    {
        ManagedCodeReviewUpdateBuilder { body: Some(lit(body)), ..self }
    }

    pub fn closed(self) -> (r: Self)
        ensures
            r.managed_code_review == self.managed_code_review,
            r@ == (CodeReviewPatchView { closed: Some(true), ..self@ }),
    {
        ManagedCodeReviewUpdateBuilder { closed: Some(true), ..self }
    }

    pub fn open(self) -> (r: Self)
        ensures
            r.managed_code_review == self.managed_code_review,
            r@ == (CodeReviewPatchView { closed: Some(false), ..self@ }),
    {
        ManagedCodeReviewUpdateBuilder { closed: Some(false), ..self }
    }

    /// The patch the update asks for.
    pub fn patch(&self) -> (r: CodeReviewPatch)
        ensures
            r@ == self@,
    {
        let mut patch = self.managed_code_review.code_review.patch();
        if let Some(t) = &self.title {
            patch = patch.title(t.as_str());
        }
        if let Some(b) = &self.body {
            patch = patch.body(b.as_str());
        }
        match self.closed {
            Some(true) => {
                patch = patch.closed();
            },
            Some(false) => {
                patch = patch.open();
            },
            None => {},
        }
        patch.get()
    }

    /// The driver's request that applies `patch()`.
    pub fn update(self) -> (r: Request)
        ensures
            exists|p: CodeReviewPatch|
                p@ == self@ && call_ensures(
                    Driver::code_review_update_request,
                    (&self.managed_code_review.manager.driver, &p),
                    r,
                ),
    {
        let patch = self.patch();
        self.managed_code_review.manager.driver.code_review_update_request(&patch)
    }
}

} // verus!
