//! The ways in which an operation fails.

use vstd::prelude::*;

verus! {

/// `bcrypt::BcryptError`: why the password hasher gave up. The library hands
/// it on and never looks inside.
#[verifier::external_type_specification]
#[verifier::external_body]
pub struct ExBcryptError(bcrypt::BcryptError);

/// A failure of the store, with the cause as the store worded it.
#[derive(Debug, PartialEq)]
pub struct StorageError {
    pub message: String,
}

impl View for StorageError {
    type V = Seq<char>;

    open spec fn view(&self) -> Seq<char> {
        self.message@
    }
}

impl DeepView for StorageError {
    type V = Seq<char>;

    open spec fn deep_view(&self) -> Seq<char> {
        self@
    }
}

/// The text of the failure that stands for a reply of the wrong kind.
pub open spec fn unexpected_reply_text() -> Seq<char> {
    "unexpected reply from storage"@
}

impl StorageError {
    /// The failure that stands for a reply that does not fit the query it
    /// answers: to the operation, the store has not done its work.
    pub fn unexpected_reply() -> (error: StorageError)
        ensures
            error@ == unexpected_reply_text(),
    {
        StorageError { message: "unexpected reply from storage".to_string() }
    }
}

/// Why a service operation failed.
#[derive(Debug)]
pub enum ServiceError {
    /// The lookup found no such record.
    NotFound,
    /// An account, active or not, already has the username.
    DuplicateUsername,
    /// The password does not match the stored hash.
    InvalidCredentials,
    /// The role is not one that a staff account may be given.
    InvalidRole,
    /// The password hasher failed.
    HashingError(bcrypt::BcryptError),
    /// The store failed.
    StorageError(StorageError),
}

/// What a [`ServiceError`] stands for in contracts: its kind, and for a
/// failure of the store its text.
pub enum ServiceErrorView {
    NotFound,
    DuplicateUsername,
    InvalidCredentials,
    InvalidRole,
    HashingError,
    StorageError(Seq<char>),
}

impl View for ServiceError {
    type V = ServiceErrorView;

    open spec fn view(&self) -> ServiceErrorView {
        match self {
            ServiceError::NotFound => ServiceErrorView::NotFound,
            ServiceError::DuplicateUsername => ServiceErrorView::DuplicateUsername,
            ServiceError::InvalidCredentials => ServiceErrorView::InvalidCredentials,
            ServiceError::InvalidRole => ServiceErrorView::InvalidRole,
            ServiceError::HashingError(_) => ServiceErrorView::HashingError,
            ServiceError::StorageError(error) => ServiceErrorView::StorageError(error@),
        }
    }
}

impl DeepView for ServiceError {
    type V = ServiceErrorView;

    open spec fn deep_view(&self) -> ServiceErrorView {
        self@
    }
}

/// What a result stands for in contracts: the view of what it holds.
pub open spec fn result_view<T: DeepView, E: DeepView>(result: Result<T, E>) -> Result<T::V, E::V> {
    match result {
        Ok(value) => Ok(value.deep_view()),
        Err(error) => Err(error.deep_view()),
    }
}

/// A failure of the store as the failure of the service operation that met it.
pub open spec fn storage_failure<T>(result: Result<T, Seq<char>>) -> Result<T, ServiceErrorView> {
    match result {
        Ok(value) => Ok(value),
        Err(text) => Err(ServiceErrorView::StorageError(text)),
    }
}

/// Hands a store's answer on as a service's answer: the value unchanged, a
/// failure of the store as [`ServiceError::StorageError`] with the same text.
pub fn pass_through<T: DeepView>(result: Result<T, StorageError>) -> (passed: Result<T, ServiceError>)
    ensures
        result_view(passed) == storage_failure(result_view(result)),
        result matches Ok(value) ==> passed == Ok::<T, ServiceError>(value),
{
    match result {
        Ok(value) => Ok(value),
        Err(error) => Err(ServiceError::StorageError(error)),
    }
}

} // verus!
