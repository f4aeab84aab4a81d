//! What can go wrong: a theme that is missing or malformed, and the refusals
//! of the theme repository.
use crate::paths::cat;
use crate::text::{decimal, decimal_of};
use vstd::prelude::*;

verus! {

/// A refusal or failure of the theme repository.
#[derive(Debug, Clone, PartialEq, Eq)]
pub enum RavenServerError {
    /// The user may not do this.
    PermissionDenied,
    /// No login is stored, or the repository asked for one.
    NotLoggedIn,
    /// The named theme or user is not in the repository.
    DoesNotExist(String),
    /// The repository answered with a status that stands for nothing else.
    ServerError(u16),
    /// Something that was sent was too long.
    TooLarge,
    /// The repository did not accept the named part of the request.
    PreConditionFailed(String),
}

/// Why an operation did not succeed.
#[derive(Debug, Clone, PartialEq, Eq)]
pub enum Error {
    /// No usable theme goes by this name.
    InvalidTheme(String),
    /// The repository refused or failed.
    Server(RavenServerError),
}

/// A refusal of the repository with its texts as character sequences.
pub enum RavenServerErrorView {
    PermissionDenied,
    NotLoggedIn,
    DoesNotExist(Seq<char>),
    ServerError(u16),
    TooLarge,
    PreConditionFailed(Seq<char>),
}

/// An error with its texts as character sequences.
pub enum ErrorView {
    InvalidTheme(Seq<char>),
    Server(RavenServerErrorView),
}

impl View for RavenServerError {
    type V = RavenServerErrorView;

    open spec fn view(&self) -> RavenServerErrorView {
        match self {
            RavenServerError::PermissionDenied => RavenServerErrorView::PermissionDenied,
            RavenServerError::NotLoggedIn => RavenServerErrorView::NotLoggedIn,
            RavenServerError::DoesNotExist(what) => RavenServerErrorView::DoesNotExist(what@),
            RavenServerError::ServerError(code) => RavenServerErrorView::ServerError(*code),
            RavenServerError::TooLarge => RavenServerErrorView::TooLarge,
            RavenServerError::PreConditionFailed(what) => RavenServerErrorView::PreConditionFailed(
                what@,
            ),
        }
    }
}

impl View for Error {
    type V = ErrorView;

    open spec fn view(&self) -> ErrorView {
        match self {
            Error::InvalidTheme(name) => ErrorView::InvalidTheme(name@),
            Error::Server(e) => ErrorView::Server(e@),
        }
    }
}

impl RavenServerErrorView {
    /// The sentence that tells a user of the refusal.
    pub open spec fn message(self) -> Seq<char> {
        match self {
            RavenServerErrorView::PermissionDenied => "not allowed to perform this operation"@,
            RavenServerErrorView::NotLoggedIn => "no login info stored"@,
            RavenServerErrorView::DoesNotExist(what) => what + " does not exist"@,
            RavenServerErrorView::ServerError(code) => "the server encountered an error. code: "@
                + decimal(code as nat),
            RavenServerErrorView::TooLarge => "a payload was sent that was too large"@,
            RavenServerErrorView::PreConditionFailed(what) => what + " was failed"@,
        }
    }
}

impl ErrorView {
    /// The sentence that tells a user of the error.
    pub open spec fn message(self) -> Seq<char> {
        match self {
            ErrorView::InvalidTheme(name) => "invalid theme name: '"@ + name + "'"@,
            ErrorView::Server(e) => e.message(),
        }
    }
}

impl RavenServerError {
    /// The sentence that tells a user of the refusal.
    pub fn to_string(&self) -> (s: String)
        ensures
            s@ == self@.message(),
    {
        match self {
            RavenServerError::PermissionDenied => "not allowed to perform this operation".to_owned(),
            RavenServerError::NotLoggedIn => "no login info stored".to_owned(),
            RavenServerError::DoesNotExist(what) => cat(what.as_str(), " does not exist"),
            RavenServerError::ServerError(code) => cat(
                "the server encountered an error. code: ",
                decimal_of(*code).as_str(),
            ),
            RavenServerError::TooLarge => "a payload was sent that was too large".to_owned(),
            RavenServerError::PreConditionFailed(what) => cat(what.as_str(), " was failed"),
        }
    }
}

impl Error {
    /// The sentence that tells a user of the error.
    pub fn to_string(&self) -> (s: String)
        ensures
            s@ == self@.message(),
    {
        match self {
            Error::InvalidTheme(name) => cat("invalid theme name: '", name.as_str()).concat("'"),
            Error::Server(e) => e.to_string(),
        }
    }
}

} // verus!
