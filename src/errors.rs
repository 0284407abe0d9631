//! The error taxonomy and the classifier of persistence failures.

use vstd::prelude::*;

use crate::text::same_text;

verus! {

/// Which upstream exchange failed.
#[derive(Clone, Copy, Debug, PartialEq, Eq, Structural)]
pub enum UpstreamCall {
    Login,
    Ping,
    FindProfile,
    RankStats,
    PopulationsStatistics,
    XpProfiles,
}

/// The column on which a unique constraint was violated.
#[derive(Clone, Copy, Debug, PartialEq, Eq, Structural)]
pub enum ConflictField {
    Email,
    Username,
    Unspecified,
}

/// What the request-handling layer is told.
#[derive(Clone, Copy, Debug, PartialEq, Eq, Structural)]
pub enum AppError {
    /// Nothing matched the query.
    NotFound,
    /// No credential is held yet for the upstream service.
    InvalidCredentials,
    /// A request was rejected before it was sent.
    InvalidInput,
    /// The upstream call failed in transport, answered with an unexpected
    /// status, or sent a payload of the wrong shape.
    UpstreamTransport(UpstreamCall),
    /// A unique constraint was violated on insert.
    PersistenceConflict(ConflictField),
    /// Anything else; the cause is not shown to the caller.
    Internal,
}

/// A failure of the credential or user store, as the store reports it.
#[derive(Clone, Debug)]
pub enum StoreError {
    /// A unique constraint was violated, on the named column where the store
    /// says which.
    UniqueViolation { column: Option<String> },
    /// The row to read or change does not exist.
    NotFound,
    /// Any other failure, with its description kept for diagnostics.
    Other(String),
}

/// The error that a persistence failure on a write becomes.
pub open spec fn store_error_class(e: StoreError) -> AppError {
    match e {
        StoreError::UniqueViolation { column: None } => AppError::PersistenceConflict(
            ConflictField::Unspecified,
        ),
        StoreError::UniqueViolation { column: Some(c) } => {
            if c@ == "email"@ {
                AppError::PersistenceConflict(ConflictField::Email)
            } else if c@ == "username"@ {
                AppError::PersistenceConflict(ConflictField::Username)
            } else {
                AppError::Internal
            }
        },
        _ => AppError::Internal,
    }
}

/// Classifies a failure of a write to the store: a unique violation on the
/// email or username column, one on an unnamed column, or an internal error.
pub fn classify_store_error(e: &StoreError) -> (r: AppError)
    ensures
        r == store_error_class(*e),
{
    match e {
        StoreError::UniqueViolation { column: None } => AppError::PersistenceConflict(
            ConflictField::Unspecified,
        ),
        StoreError::UniqueViolation { column: Some(c) } => {
            if same_text(c.as_str(), "email") {
                AppError::PersistenceConflict(ConflictField::Email)
            } else if same_text(c.as_str(), "username") {
                AppError::PersistenceConflict(ConflictField::Username)
            } else {
                AppError::Internal
            }
        },
        _ => AppError::Internal,
    }
}

/// The text shown to the caller for each error.
pub open spec fn message_of(e: AppError) -> Seq<char> {
    match e {
        AppError::NotFound => "Not found."@,
        AppError::InvalidCredentials => "Invalid credentials."@,
        AppError::InvalidInput => "Invalid input."@,
        AppError::UpstreamTransport(_) => "Upstream service unavailable."@,
        AppError::PersistenceConflict(ConflictField::Email) => "Email address already exists."@,
        AppError::PersistenceConflict(ConflictField::Username) => "Username already exists."@,
        AppError::PersistenceConflict(ConflictField::Unspecified) => "Username or email already exists."@,
        AppError::Internal => "Internal error."@,
    }
}

impl AppError {
    /// The text shown to the caller; internal detail is never part of it.
    pub fn message(&self) -> (r: String)
        ensures
            r@ == message_of(*self),
    {
        match self {
            AppError::NotFound => String::from_str("Not found."),
            AppError::InvalidCredentials => String::from_str("Invalid credentials."),
            AppError::InvalidInput => String::from_str("Invalid input."),
            AppError::UpstreamTransport(_) => String::from_str("Upstream service unavailable."),
            AppError::PersistenceConflict(ConflictField::Email) => String::from_str(
                "Email address already exists.",
            ),
            AppError::PersistenceConflict(ConflictField::Username) => String::from_str(
                "Username already exists.",
            ),
            AppError::PersistenceConflict(ConflictField::Unspecified) => String::from_str(
                "Username or email already exists.",
            ),
            AppError::Internal => String::from_str("Internal error."),
        }
    }
}

} // verus!
