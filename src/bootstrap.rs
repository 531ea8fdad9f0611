//! Bootstrap of users and service accounts: generated passwords, the keys
//! credentials are stored under, and the decision for each account.

use crate::error::Error;
use crate::registrar::{replace_char, replaced};
use crate::text::{decimal, join2, owned, push_char, push_decimal};
use vstd::prelude::*;

verus! {

/// The characters a generated password is drawn from.
pub const PASSWORD_ALPHABET: &'static str =
    "abcdefghijklmnopqrstuvwxyzABCDEFGHIJKLMNOPQRSTUVWXYZ0123456789";

/// Number of random characters in a generated password.
pub const PASSWORD_DRAWS: usize = 20;

/// The text between the random characters and the numeric suffix.
pub const PASSWORD_INFIX: &'static str = "#Ag";

/// Prefix of the key a user's password is stored under.
pub const PASSWORD_KEY_PREFIX: &'static str = "GITLAB_PASSWORD_";

/// Prefix of the key a service account's token is stored under.
pub const TOKEN_KEY_PREFIX: &'static str = "GITLAB_TOKEN_";

/// The password made from alphabet positions `draws` and the number
/// `suffix`.
pub open spec fn password_spec(draws: Seq<u8>, suffix: u16) -> Seq<char> {
    draws.map_values(|d: u8| PASSWORD_ALPHABET@[d as int]) + PASSWORD_INFIX@ + decimal(
        suffix as nat,
    )
}

/// A password from random draws: one alphabet character per draw (each
/// below 62), then `#Ag` and the decimal suffix.
pub fn password_from_draws(draws: &Vec<u8>, suffix: u16) -> (r: String)
    requires
        forall|i: int| 0 <= i < draws@.len() ==> draws@[i] < 62,
    ensures
        r@ == password_spec(draws@, suffix),
{
    proof {
        reveal_strlit("abcdefghijklmnopqrstuvwxyzABCDEFGHIJKLMNOPQRSTUVWXYZ0123456789");
    }
    let mut r = String::new();
    let mut i: usize = 0;
    while i < draws.len()
        invariant
            i <= draws@.len(),
            forall|j: int| 0 <= j < draws@.len() ==> draws@[j] < 62,
            PASSWORD_ALPHABET@.len() == 62,
            r@ == draws@.subrange(0, i as int).map_values(|d: u8| PASSWORD_ALPHABET@[d as int]),
        decreases draws@.len() - i,
    {
        let c = PASSWORD_ALPHABET.get_char(draws[i] as usize);
        push_char(&mut r, c);
        proof {
            assert(r@ =~= draws@.subrange(0, i + 1).map_values(
                |d: u8| PASSWORD_ALPHABET@[d as int],
            ));
        }
        i = i + 1;
    }
    assert(draws@.subrange(0, i as int) =~= draws@);
    r.append(PASSWORD_INFIX);
    push_decimal(&mut r, suffix as u64);
    r
}

/// The key a credential of `username` is stored under: the prefix, then
/// the user name with `-` written as `_`.
pub fn credential_key(prefix: &str, username: &str) -> (r: String)
    ensures
        r@ == prefix@ + replaced(username@, '-', '_'),
{
    join2(prefix, replace_char(username, '-', '_').as_str())
}

/// The display name of an account: service accounts are marked.
pub fn account_display_name(name: &str, is_service: bool) -> (r: String)
    ensures
        is_service ==> r@ == name@ + " (Service)"@,
        !is_service ==> r@ == name@,
{
    if is_service {
        join2(name, " (Service)")
    } else {
        owned(name)
    }
}

/// Bootstrap creates accounts only with an administrator's token; any
/// other token aborts before anything is created.
pub fn require_admin(is_admin: bool) -> (r: Result<(), Error>)
    ensures
        is_admin <==> r is Ok,
        r is Err ==> r->Err_0 is Authentication,
{
    if is_admin {
        Ok(())
    } else {
        Err(Error::Authentication(owned("Admin privileges required")))
    }
}

/// What bootstrap does with one account.
#[derive(Debug, Clone, Copy, PartialEq, Eq, Structural)]
pub enum AccountStep {
    /// Human accounts are skipped when only service accounts are wanted.
    Skip,
    /// The account exists already.
    Exists,
    /// A dry run reports the creation only.
    Report,
    /// Create the account.
    Create,
}

/// The step for one account: humans are skipped when only services are
/// wanted, existing accounts are left alone, and a dry run only reports.
pub open spec fn account_step_spec(is_service: bool, service_only: bool, exists: bool, dry_run: bool) -> AccountStep {
    if service_only && !is_service {
        AccountStep::Skip
    } else if exists {
        AccountStep::Exists
    } else if dry_run {
        AccountStep::Report
    } else {
        AccountStep::Create
    }
}

/// The step for one account, as `account_step_spec` states it.
pub fn account_step(is_service: bool, service_only: bool, exists: bool, dry_run: bool) -> (r: AccountStep)
    ensures
        r == account_step_spec(is_service, service_only, exists, dry_run),
{
    if service_only && !is_service {
        AccountStep::Skip
    } else if exists {
        AccountStep::Exists
    } else if dry_run {
        AccountStep::Report
    } else {
        AccountStep::Create
    }
}

} // verus!
