//! Authentication: a secret token that zeroes its memory on drop and never
//! shows its contents except through an explicit `expose` call, and the
//! header each authentication method sends.

use crate::text::{join2, owned, starts_with};
use secrecy::{ExposeSecret, SecretString};
use vstd::prelude::*;
use vstd::utf8::encode_utf8;

verus! {

/// A `secrecy::SecretString`: a heap string that is zeroed on drop and
/// whose `Debug` output is a redaction marker.
#[verifier::external_body]
#[derive(Debug)]
pub struct Sealed {
    inner: SecretString,
}

/// The text held by a sealed box.
pub uninterp spec fn secret_content(s: Sealed) -> Seq<char>;

/// Relies on `From<String> for secrecy::SecretString`: the box holds the
/// given string.
#[verifier::external_body]
fn seal(s: String) -> (r: Sealed)
    ensures
        secret_content(r) == s@,
{
    Sealed { inner: SecretString::from(s) }
}

/// Relies on `ExposeSecret::expose_secret` of `secrecy::SecretBox`: it
/// returns a reference to the held string.
#[verifier::external_body]
fn open_box(s: &Sealed) -> (r: &str)
    ensures
        r@ == secret_content(*s),
{
    s.inner.expose_secret()
}

/// Relies on `Clone for secrecy::SecretString`: the copy holds the same
/// string.
#[verifier::external_body]
fn copy_box(s: &Sealed) -> (r: Sealed)
    ensures
        secret_content(r) == secret_content(*s),
{
    Sealed { inner: s.inner.clone() }
}

/// The fixed text shown wherever a secret would otherwise be rendered.
pub const REDACTED: &'static str = "[REDACTED]";

/// A secret token. Its `Debug` rendering comes from `secrecy`, which
/// prints a redaction marker in place of the value.
#[derive(Debug)]
pub struct Token(Sealed);

impl View for Token {
    type V = Seq<char>;

    closed spec fn view(&self) -> Seq<char> {
        secret_content(self.0)
    }
}

impl Token {
    /// Wraps a plaintext value.
    pub fn new(value: &str) -> (r: Token)
        ensures
            r@ == value@,
    {
        Token(seal(String::from_str(value)))
    }

    /// The plaintext value; for use only where it is sent or stored.
    pub fn expose(&self) -> (r: &str)
        ensures
            r@ == self@,
    {
        open_box(&self.0)
    }

    /// A second token holding the same value.
    pub fn duplicate(&self) -> (r: Token)
        ensures
            r@ == self@,
    {
        Token(copy_box(&self.0))
    }

    /// Basic format check: a `glpat-` prefix, or at least 20 bytes.
    pub fn is_valid_format(&self) -> (r: bool)
        ensures
            r == (("glpat-"@).len() <= self@.len() && self@.subrange(0, ("glpat-"@).len() as int)
                == "glpat-"@ || encode_utf8(self@).len() as usize >= 20),
    {
        let s = self.expose();
        starts_with(s, "glpat-") || s.len() >= 20
    }

    /// The text shown in place of the token: always the redaction marker,
    /// whatever the value.
    pub fn to_display_string(&self) -> (r: String)
        ensures
            r@ == REDACTED@,
    {
        owned(REDACTED)
    }
}

/// How requests authenticate.
#[derive(Debug)]
pub enum AuthMethod {
    /// Personal access token.
    PrivateToken(Token),
    /// OAuth2 bearer token.
    OAuth2(Token),
    /// CI job token.
    JobToken(Token),
}

impl AuthMethod {
    /// The token, whatever the method.
    pub open spec fn token_text(&self) -> Seq<char> {
        match self {
            AuthMethod::PrivateToken(t) => t@,
            AuthMethod::OAuth2(t) => t@,
            AuthMethod::JobToken(t) => t@,
        }
    }

    /// The header name the method sends.
    pub open spec fn header_name_spec(&self) -> Seq<char> {
        match self {
            AuthMethod::PrivateToken(_) => "PRIVATE-TOKEN"@,
            AuthMethod::OAuth2(_) => "Authorization"@,
            AuthMethod::JobToken(_) => "JOB-TOKEN"@,
        }
    }

    /// The header value the method sends.
    pub open spec fn header_value_spec(&self) -> Seq<char> {
        match self {
            AuthMethod::OAuth2(t) => "Bearer "@ + t@,
            _ => self.token_text(),
        }
    }

    /// Name of the authentication header.
    pub fn header_name(&self) -> (r: &'static str)
        ensures
            r@ == self.header_name_spec(),
    {
        match self {
            AuthMethod::PrivateToken(_) => "PRIVATE-TOKEN",
            AuthMethod::OAuth2(_) => "Authorization",
            AuthMethod::JobToken(_) => "JOB-TOKEN",
        }
    }

    /// Value of the authentication header; this exposes the token.
    pub fn header_value(&self) -> (r: String)
        ensures
            r@ == self.header_value_spec(),
    {
        match self {
            AuthMethod::PrivateToken(t) => owned(t.expose()),
            AuthMethod::JobToken(t) => owned(t.expose()),
            AuthMethod::OAuth2(t) => join2("Bearer ", t.expose()),
        }
    }

    /// A second method of the same kind with the same token.
    pub fn duplicate(&self) -> (r: AuthMethod)
        ensures
            r.header_name_spec() == self.header_name_spec(),
            r.header_value_spec() == self.header_value_spec(),
            r.token_text() == self.token_text(),
    {
        match self {
            AuthMethod::PrivateToken(t) => AuthMethod::PrivateToken(t.duplicate()),
            AuthMethod::OAuth2(t) => AuthMethod::OAuth2(t.duplicate()),
            AuthMethod::JobToken(t) => AuthMethod::JobToken(t.duplicate()),
        }
    }

    /// The text shown in place of the method: its kind and the redaction
    /// marker, never the token.
    pub fn to_display_string(&self) -> (r: String)
        ensures
            self is PrivateToken ==> r@ == "AuthMethod::PrivateToken("@ + REDACTED@ + ")"@,
            self is OAuth2 ==> r@ == "AuthMethod::OAuth2("@ + REDACTED@ + ")"@,
            self is JobToken ==> r@ == "AuthMethod::JobToken("@ + REDACTED@ + ")"@,
    {
        let kind = match self {
            AuthMethod::PrivateToken(_) => "AuthMethod::PrivateToken(",
            AuthMethod::OAuth2(_) => "AuthMethod::OAuth2(",
            AuthMethod::JobToken(_) => "AuthMethod::JobToken(",
        };
        crate::text::join3(kind, REDACTED, ")")
    }
}

} // verus!
