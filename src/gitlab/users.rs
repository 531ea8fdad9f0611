//! User types and the request that creates a user.

use crate::gitlab::auth::Token;
use crate::text::owned;
use vstd::prelude::*;

verus! {

/// A user as the platform reports it.
#[derive(Debug)]
pub struct User {
    pub id: u64,
    pub username: String,
    pub email: Option<String>,
    pub name: String,
    pub state: UserState,
    pub is_admin: bool,
    /// Creation time, RFC 3339.
    pub created_at: String,
    pub namespace: Option<Namespace>,
}

/// A user's personal namespace.
#[derive(Debug)]
pub struct Namespace {
    pub id: u64,
    pub name: String,
    pub path: String,
}

/// Account state.
#[derive(Debug, Clone, Copy, PartialEq, Eq, Structural)]
pub enum UserState {
    Active,
    Blocked,
    Deactivated,
    /// Any state this library does not know.
    Unknown,
}

/// Role, ordered by access level.
#[derive(Debug, Clone, Copy, PartialEq, Eq, Structural)]
pub enum UserRole {
    Guest,
    Reporter,
    Developer,
    Maintainer,
    Owner,
}

impl UserRole {
    /// The numeric access level of the role.
    pub open spec fn level(&self) -> u8 {
        match self {
            UserRole::Guest => 10,
            UserRole::Reporter => 20,
            UserRole::Developer => 30,
            UserRole::Maintainer => 40,
            UserRole::Owner => 50,
        }
    }

    /// The numeric access level: 10, 20, 30, 40 or 50.
    pub fn as_access_level(&self) -> (r: u8)
        ensures
            r == self.level(),
    {
        match self {
            UserRole::Guest => 10,
            UserRole::Reporter => 20,
            UserRole::Developer => 30,
            UserRole::Maintainer => 40,
            UserRole::Owner => 50,
        }
    }
}

/// Request to create a user. The password is a secret: generic
/// formatting shows a redaction marker in its place.
#[derive(Debug)]
pub struct CreateUserRequest {
    pub username: String,
    pub email: String,
    pub name: String,
    pub password: Token,
    pub is_admin: bool,
    pub skip_confirmation: bool,
    pub projects_limit: Option<u32>,
}

impl CreateUserRequest {
    /// The password the request carries.
    pub closed spec fn password_text(&self) -> Seq<char> {
        self.password@
    }

    /// A non-admin user that needs no email confirmation.
    pub fn new(username: &str, email: &str, name: &str, password: &str) -> (r: CreateUserRequest)
        ensures
            r.username@ == username@,
            r.email@ == email@,
            r.name@ == name@,
            r.password_text() == password@,
            !r.is_admin,
            r.skip_confirmation,
            r.projects_limit is None,
    {
        CreateUserRequest {
            username: owned(username),
            email: owned(email),
            name: owned(name),
            password: Token::new(password),
            is_admin: false,
            skip_confirmation: true,
            projects_limit: None,
        }
    }

    /// Sets the admin flag.
    pub fn admin(self, is_admin: bool) -> (r: CreateUserRequest)
        ensures
            r == (CreateUserRequest { is_admin, ..self }),
    {
        CreateUserRequest { is_admin, ..self }
    }

    /// Sets the project limit.
    pub fn projects_limit(self, limit: u32) -> (r: CreateUserRequest)
        ensures
            r == (CreateUserRequest { projects_limit: Some(limit), ..self }),
    {
        CreateUserRequest { projects_limit: Some(limit), ..self }
    }

    /// Requires the user to confirm the email address.
    pub fn require_confirmation(self) -> (r: CreateUserRequest)
        ensures
            r == (CreateUserRequest { skip_confirmation: false, ..self }),
    {
        CreateUserRequest { skip_confirmation: false, ..self }
    }

    /// The password; for use only where the request is sent.
    pub fn expose_password(&self) -> (r: &str)
        ensures
            r@ == self.password_text(),
    {
        self.password.expose()
    }
}

} // verus!
