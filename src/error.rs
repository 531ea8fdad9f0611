//! The error taxonomy shared by every fallible operation.

use crate::text::{decimal, decimal_string, join2, owned};
use vstd::prelude::*;

verus! {

/// Every failure the library reports.
#[derive(Debug)]
pub enum Error {
    /// A non-success status other than 401, 404 and 409.
    GitLabApi { status: u16, message: String },
    /// Status 401.
    Authentication(String),
    /// Status 404.
    UserNotFound(String),
    /// Status 409.
    UserExists(String),
    /// Invalid or missing configuration, or a refused operation.
    Config(String),
    /// A credential could not be stored or found.
    Credential(String),
    /// The transport failed before a status was received.
    Http { timeout: bool, connect: bool },
    /// A payload could not be encoded or decoded.
    Json,
    /// A URL could not be parsed.
    Url,
    /// A file could not be read or written.
    Io(String),
}

/// The error for a failed response with `status`, as the API reports it.
pub open spec fn status_error_spec(status: u16, message: String) -> Error {
    if status == 401 {
        Error::Authentication(message)
    } else if status == 404 {
        Error::UserNotFound(message)
    } else if status == 409 {
        Error::UserExists(message)
    } else {
        Error::GitLabApi { status, message }
    }
}

impl Error {
    /// Whether the error is the one a failed response with `status` and
    /// `message` produces.
    pub open spec fn reports(&self, status: u16, message: Seq<char>) -> bool {
        match self {
            Error::Authentication(m) => status == 401 && m@ == message,
            Error::UserNotFound(m) => status == 404 && m@ == message,
            Error::UserExists(m) => status == 409 && m@ == message,
            Error::GitLabApi { status: s, message: m } => *s == status && status != 401 && status
                != 404 && status != 409 && m@ == message,
            _ => false,
        }
    }

    /// Whether a caller may retry the failed operation.
    pub open spec fn retryable(&self) -> bool {
        match self {
            Error::GitLabApi { status, .. } => *status == 429 || *status >= 500,
            Error::Http { timeout, connect } => *timeout || *connect,
            _ => false,
        }
    }

    /// An API error with the given status and message.
    pub fn gitlab_api(status: u16, message: String) -> (r: Error)
        ensures
            r == (Error::GitLabApi { status, message }),
    {
        Error::GitLabApi { status, message }
    }

    /// The error for a failed response: 401, 404 and 409 have variants of
    /// their own, every other status is kept in an API error.
    pub fn from_status(status: u16, message: String) -> (r: Error)
        ensures
            r == status_error_spec(status, message),
            r.reports(status, message@),
    {
        if status == 401 {
            Error::Authentication(message)
        } else if status == 404 {
            Error::UserNotFound(message)
        } else if status == 409 {
            Error::UserExists(message)
        } else {
            Error::GitLabApi { status, message }
        }
    }

    /// True for status 429, statuses of 500 and above, and transport
    /// timeouts or connection failures; false for everything else.
    pub fn is_retryable(&self) -> (r: bool)
        ensures
            r == self.retryable(),
    {
        match self {
            Error::GitLabApi { status, .. } => *status == 429 || *status >= 500,
            Error::Http { timeout, connect } => *timeout || *connect,
            _ => false,
        }
    }

    /// Whether this is a configuration error.
    pub fn is_config(&self) -> (r: bool)
        ensures
            r == (self is Config),
    {
        match self {
            Error::Config(_) => true,
            _ => false,
        }
    }

    /// The human-readable description of the error.
    pub fn describe(&self) -> (r: String)
        ensures
            self is GitLabApi ==> r@ == "GitLab API error: "@ + decimal(
                self->status as nat,
            ) + " - "@ + self->message@,
            self is Authentication ==> r@ == "Authentication failed: "@ + self->Authentication_0@,
            self is UserNotFound ==> r@ == "User not found: "@ + self->UserNotFound_0@,
            self is UserExists ==> r@ == "User already exists: "@ + self->UserExists_0@,
            self is Config ==> r@ == "Invalid configuration: "@ + self->Config_0@,
            self is Credential ==> r@ == "Credential error: "@ + self->Credential_0@,
            self is Http ==> r@ == "HTTP request failed"@,
            self is Json ==> r@ == "JSON serialization error"@,
            self is Url ==> r@ == "URL parse error"@,
            self is Io ==> r@ == "IO error: "@ + self->Io_0@,
    {
        match self {
            Error::GitLabApi { status, message } => {
                let mut r = owned("GitLab API error: ");
                r.append(decimal_string(*status as u64).as_str());
                r.append(" - ");
                r.append(message.as_str());
                r
            },
            Error::Authentication(m) => join2("Authentication failed: ", m.as_str()),
            Error::UserNotFound(m) => join2("User not found: ", m.as_str()),
            Error::UserExists(m) => join2("User already exists: ", m.as_str()),
            Error::Config(m) => join2("Invalid configuration: ", m.as_str()),
            Error::Credential(m) => join2("Credential error: ", m.as_str()),
            Error::Http { .. } => owned("HTTP request failed"),
            Error::Json => owned("JSON serialization error"),
            Error::Url => owned("URL parse error"),
            Error::Io(m) => join2("IO error: ", m.as_str()),
        }
    }
}

/// A failed response is classified by its status alone: 401, 404 and 409
/// are authentication, not-found and conflict errors, any other status is
/// an API error that keeps it; and for a status of 400 or more the error
/// is retryable exactly when the status is 429 or at least 500.
pub proof fn lemma_status_classification(e: Error, status: u16, message: Seq<char>)
    requires
        e.reports(status, message),
    ensures
        e is Authentication <==> status == 401,
        e is UserNotFound <==> status == 404,
        e is UserExists <==> status == 409,
        status != 401 && status != 404 && status != 409 ==> e is GitLabApi && e->status == status,
        status >= 400 ==> (e.retryable() <==> (status == 429 || status >= 500)),
{
}

} // verus!
