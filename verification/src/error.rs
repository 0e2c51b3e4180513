//! Error model of the provisioning core.
//!
//! Precondition failures (credential verification, malformed input, template
//! acquisition) abort a run before dispatch; per-unit failures during
//! dispatch are attributed to their unit and never abort sibling units.

use vstd::prelude::*;

verus! {

/// The kind of a platform failure, without its message.
///
/// Fieldless so that callers and tests can compare kinds directly.
#[derive(Clone, Copy, Debug, PartialEq, Eq, Structural)]
pub enum ErrorKind {
    Authentication,
    NotFound,
    PermissionDenied,
    RateLimited,
    CloneFailed,
    PushFailed,
    InvalidInput,
    Backend,
}

/// A failure reported by a hosting backend or by input validation,
/// carrying a human-readable message.
#[derive(Debug)]
pub enum PlatformError {
    /// The credential is bad or missing.
    AuthenticationError(String),
    /// The organization, path or template is unreachable.
    NotFoundError(String),
    /// The acting user lacks rights for the operation.
    PermissionDenied(String),
    /// The backend throttled the request.
    RateLimited(String),
    /// A template source could not be cloned.
    CloneError(String),
    /// Pushing content into a repository failed.
    PushError(String),
    /// The roster or team input is malformed.
    InvalidInputError(String),
    /// Any other backend-specific failure.
    BackendError(String),
}

impl PlatformError {
    /// The kind of this error, for branching and for tests.
    pub fn kind(&self) -> (k: ErrorKind)
        ensures
            k == self.kind_spec(),
    {
        match self {
            PlatformError::AuthenticationError(_) => ErrorKind::Authentication,
            PlatformError::NotFoundError(_) => ErrorKind::NotFound,
            PlatformError::PermissionDenied(_) => ErrorKind::PermissionDenied,
            PlatformError::RateLimited(_) => ErrorKind::RateLimited,
            PlatformError::CloneError(_) => ErrorKind::CloneFailed,
            PlatformError::PushError(_) => ErrorKind::PushFailed,
            PlatformError::InvalidInputError(_) => ErrorKind::InvalidInput,
            PlatformError::BackendError(_) => ErrorKind::Backend,
        }
    }

    /// The kind of the error as a specification value.
    pub open spec fn kind_spec(&self) -> ErrorKind {
        match self {
            PlatformError::AuthenticationError(_) => ErrorKind::Authentication,
            PlatformError::NotFoundError(_) => ErrorKind::NotFound,
            PlatformError::PermissionDenied(_) => ErrorKind::PermissionDenied,
            PlatformError::RateLimited(_) => ErrorKind::RateLimited,
            PlatformError::CloneError(_) => ErrorKind::CloneFailed,
            PlatformError::PushError(_) => ErrorKind::PushFailed,
            PlatformError::InvalidInputError(_) => ErrorKind::InvalidInput,
            PlatformError::BackendError(_) => ErrorKind::Backend,
        }
    }

    /// The message the error was built with.
    pub open spec fn message_spec(&self) -> Seq<char> {
        match self {
            PlatformError::AuthenticationError(m) => m@,
            PlatformError::NotFoundError(m) => m@,
            PlatformError::PermissionDenied(m) => m@,
            PlatformError::RateLimited(m) => m@,
            PlatformError::CloneError(m) => m@,
            PlatformError::PushError(m) => m@,
            PlatformError::InvalidInputError(m) => m@,
            PlatformError::BackendError(m) => m@,
        }
    }

    /// A reference to the message the error was built with.
    pub fn message(&self) -> (m: &String)
        ensures
            m@ == self.message_spec(),
    {
        match self {
            PlatformError::AuthenticationError(m) => m,
            PlatformError::NotFoundError(m) => m,
            PlatformError::PermissionDenied(m) => m,
            PlatformError::RateLimited(m) => m,
            PlatformError::CloneError(m) => m,
            PlatformError::PushError(m) => m,
            PlatformError::InvalidInputError(m) => m,
            PlatformError::BackendError(m) => m,
        }
    }
}

/// One failed unit of work: which team and repository, and why.
#[derive(Debug)]
pub struct SetupError {
    pub team_name: String,
    pub repo_name: String,
    pub error: PlatformError,
}

/// The abstract value of a `SetupError`.
pub struct SetupErrorView {
    pub team_name: Seq<char>,
    pub repo_name: Seq<char>,
    pub kind: ErrorKind,
    pub message: Seq<char>,
}

impl View for SetupError {
    type V = SetupErrorView;

    open spec fn view(&self) -> SetupErrorView {
        SetupErrorView {
            team_name: self.team_name@,
            repo_name: self.repo_name@,
            kind: self.error.kind_spec(),
            message: self.error.message_spec(),
        }
    }
}

/// A failure around persisted application settings.
#[derive(Debug)]
pub enum ConfigError {
    /// No platform configuration directory could be resolved.
    ConfigDirUnavailable,
    /// The settings file does not exist.
    FileNotFound(String),
    /// The settings file could not be read.
    ReadFailed(String),
    /// The settings file held malformed data.
    ParseFailed(String),
    /// The settings hold values outside their allowed ranges.
    ValidationFailed(Vec<String>),
}

} // verus!
