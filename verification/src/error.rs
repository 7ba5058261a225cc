//! The errors of this library.
use vstd::prelude::*;

verus! {

/// An error of a provider operation or of a local git command.
#[derive(Clone, Debug, PartialEq, Eq)]
pub enum CognitionError {
    InvalidInput(String),
    UnsupportedOperation(String),
    ProviderNotRegistered(String),
    ProviderAlreadyRegistered(String),
    TransportNotConfigured,
}

/// Another name for the errors of this library.
pub type VcsError = CognitionError;

pub type CognitionResult<T> = Result<T, CognitionError>;

pub type VcsResult<T> = Result<T, CognitionError>;

/// An error over plain values.
pub enum ErrorView {
    InvalidInput(Seq<char>),
    UnsupportedOperation(Seq<char>),
    ProviderNotRegistered(Seq<char>),
    ProviderAlreadyRegistered(Seq<char>),
    TransportNotConfigured,
}

impl View for CognitionError {
    type V = ErrorView;

    open spec fn view(&self) -> ErrorView {
        match self {
            CognitionError::InvalidInput(m) => ErrorView::InvalidInput(m@),
            CognitionError::UnsupportedOperation(m) => ErrorView::UnsupportedOperation(m@),
            CognitionError::ProviderNotRegistered(m) => ErrorView::ProviderNotRegistered(m@),
            CognitionError::ProviderAlreadyRegistered(m) => ErrorView::ProviderAlreadyRegistered(
                m@,
            ),
            CognitionError::TransportNotConfigured => ErrorView::TransportNotConfigured,
        }
    }
}

/// An input that the operation cannot work with.
pub fn invalid_input(message: &str) -> (r: CognitionError)
    ensures
        r@ == ErrorView::InvalidInput(message@),
{
    CognitionError::InvalidInput(message.to_owned())
}

/// An operation that the provider does not offer.
pub fn unsupported_operation(operation: &str) -> (r: CognitionError)
    ensures
        r@ == ErrorView::UnsupportedOperation(operation@),
{
    CognitionError::UnsupportedOperation(operation.to_owned())
}

} // verus!
