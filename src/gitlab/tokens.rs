//! Personal access tokens: scopes, creation requests and expiry.

use crate::gitlab::auth::Token;
use crate::text::owned;
use chrono::Datelike;
use vstd::prelude::*;

verus! {

/// A permission a token grants.
#[derive(Debug, Clone, Copy, PartialEq, Eq, Structural)]
pub enum TokenScope {
    Api,
    ReadApi,
    ReadUser,
    ReadRepository,
    WriteRepository,
    ReadRegistry,
    WriteRegistry,
    Sudo,
    CreateRunner,
    ManageRunner,
    AiFeatures,
    K8sProxy,
}

impl TokenScope {
    /// Scopes for full automation.
    pub fn automation() -> (r: Vec<TokenScope>)
        ensures
            r@ == seq![TokenScope::Api, TokenScope::ReadRepository, TokenScope::WriteRepository],
    {
        let r = vec![TokenScope::Api, TokenScope::ReadRepository, TokenScope::WriteRepository];
        assert(r@ =~= seq![TokenScope::Api, TokenScope::ReadRepository, TokenScope::WriteRepository]);
        r
    }

    /// Scopes for a read-only service.
    pub fn readonly() -> (r: Vec<TokenScope>)
        ensures
            r@ == seq![TokenScope::ReadApi, TokenScope::ReadRepository],
    {
        let r = vec![TokenScope::ReadApi, TokenScope::ReadRepository];
        assert(r@ =~= seq![TokenScope::ReadApi, TokenScope::ReadRepository]);
        r
    }

    /// Scopes for a backup service.
    pub fn backup() -> (r: Vec<TokenScope>)
        ensures
            r@ == seq![TokenScope::Api, TokenScope::ReadRepository, TokenScope::Sudo],
    {
        let r = vec![TokenScope::Api, TokenScope::ReadRepository, TokenScope::Sudo];
        assert(r@ =~= seq![TokenScope::Api, TokenScope::ReadRepository, TokenScope::Sudo]);
        r
    }

    /// Scopes for a CI service.
    pub fn ci() -> (r: Vec<TokenScope>)
        ensures
            r@ == seq![TokenScope::Api, TokenScope::ReadRepository, TokenScope::WriteRepository],
    {
        let r = vec![TokenScope::Api, TokenScope::ReadRepository, TokenScope::WriteRepository];
        assert(r@ =~= seq![TokenScope::Api, TokenScope::ReadRepository, TokenScope::WriteRepository]);
        r
    }
}

/// A calendar date.
#[derive(Debug, Clone, Copy, PartialEq, Eq, Structural)]
pub struct CalendarDate {
    pub year: i32,
    pub month: u32,
    pub day: u32,
}

impl CalendarDate {
    /// Whether `self` is strictly earlier than `other`.
    pub open spec fn before(&self, other: CalendarDate) -> bool {
        self.year < other.year || (self.year == other.year && (self.month < other.month || (
        self.month == other.month && self.day < other.day)))
    }

    /// Whether `self` is strictly earlier than `other`.
    pub fn is_before(&self, other: &CalendarDate) -> (r: bool)
        ensures
            r == self.before(*other),
    {
        self.year < other.year || (self.year == other.year && (self.month < other.month || (
        self.month == other.month && self.day < other.day)))
    }
}

/// The date `days` days after the given year, month and day, as
/// `chrono::NaiveDate` computes it; `None` when the start is not a date or
/// the result is out of range.
pub uninterp spec fn date_plus_days(year: i32, month: u32, day: u32, days: u64) -> Option<
    (i32, u32, u32),
>;

/// The date `chrono::NaiveDate::parse_from_str` reads from `s` with the
/// format `fmt`, as year, month and day; `None` when it fails.
pub uninterp spec fn date_parsed(s: Seq<char>, fmt: Seq<char>) -> Option<(i32, u32, u32)>;

/// Relies on `chrono::NaiveDate::from_ymd_opt` and
/// `NaiveDate::checked_add_days`: calendar arithmetic, `None` for an
/// invalid start or an out-of-range result.
#[verifier::external_body]
fn add_days(year: i32, month: u32, day: u32, days: u64) -> (r: Option<(i32, u32, u32)>)
    ensures
        r == date_plus_days(year, month, day, days),
{
    chrono::NaiveDate::from_ymd_opt(year, month, day).and_then(
        |d| d.checked_add_days(chrono::Days::new(days)),
    ).map(|d| (d.year(), d.month(), d.day()))
}

/// Relies on `chrono::NaiveDate::parse_from_str`: the date `s` denotes
/// in the format `fmt`, or `None`.
#[verifier::external_body]
fn parse_date(s: &str, fmt: &str) -> (r: Option<(i32, u32, u32)>)
    ensures
        r == date_parsed(s@, fmt@),
{
    chrono::NaiveDate::parse_from_str(s, fmt).ok().map(|d| (d.year(), d.month(), d.day()))
}

/// The date format the API uses.
pub const DATE_FORMAT: &'static str = "%Y-%m-%d";

/// Request to create a personal access token.
#[derive(Debug)]
pub struct CreateTokenRequest {
    pub name: String,
    pub scopes: Vec<TokenScope>,
    pub expires_at: Option<CalendarDate>,
}

impl CreateTokenRequest {
    /// A token with the given name and scopes that does not expire.
    pub fn new(name: &str, scopes: Vec<TokenScope>) -> (r: CreateTokenRequest)
        ensures
            r.name@ == name@,
            r.scopes == scopes,
            r.expires_at is None,
    {
        CreateTokenRequest { name: owned(name), scopes, expires_at: None }
    }

    /// Sets the expiry date.
    pub fn expires_at(self, date: CalendarDate) -> (r: CreateTokenRequest)
        ensures
            r == (CreateTokenRequest { expires_at: Some(date), ..self }),
    {
        CreateTokenRequest { expires_at: Some(date), ..self }
    }

    /// Sets the expiry to `days` days after `today`; no expiry when that
    /// date cannot be represented.
    pub fn expires_in_days(self, today: CalendarDate, days: u64) -> (r: CreateTokenRequest)
        ensures
            r.name == self.name,
            r.scopes == self.scopes,
            match date_plus_days(today.year, today.month, today.day, days) {
                Some((y, m, d)) => r.expires_at == Some(CalendarDate { year: y, month: m, day: d }),
                None => r.expires_at is None,
            },
    {
        let expires_at = match add_days(today.year, today.month, today.day, days) {
            Some((year, month, day)) => Some(CalendarDate { year, month, day }),
            None => None,
        };
        CreateTokenRequest { expires_at, ..self }
    }
}

/// A personal access token as the API reports it.
#[derive(Debug)]
pub struct PersonalAccessToken {
    pub id: u64,
    pub name: String,
    pub revoked: bool,
    pub created_at: String,
    pub scopes: Vec<String>,
    /// Expiry date, `YYYY-MM-DD`.
    pub expires_at: Option<String>,
    /// The token value; present only in the response that created it.
    pub token: Option<Token>,
}

impl PersonalAccessToken {
    /// The token value, when the response carries it.
    pub fn token(&self) -> (r: Option<Token>)
        ensures
            r is Some == self.token is Some,
            r is Some ==> r->0@ == self.token->0@,
    {
        match &self.token {
            Some(t) => Some(t.duplicate()),
            None => None,
        }
    }

    /// Whether the token has not been revoked.
    pub fn is_active(&self) -> (r: bool)
        ensures
            r == !self.revoked,
    {
        !self.revoked
    }

    /// Whether the token's expiry date, when it has a readable one, is
    /// before `today`.
    pub fn is_expired(&self, today: CalendarDate) -> (r: bool)
        ensures
            r == match self.expires_at {
                Some(e) => match date_parsed(e@, DATE_FORMAT@) {
                    Some((y, m, d)) => (CalendarDate { year: y, month: m, day: d }).before(today),
                    None => false,
                },
                None => false,
            },
    {
        match &self.expires_at {
            Some(e) => match parse_date(e.as_str(), DATE_FORMAT) {
                Some((year, month, day)) => CalendarDate { year, month, day }.is_before(&today),
                None => false,
            },
            None => false,
        }
    }
}

} // verus!
