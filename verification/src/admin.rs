//! The platform administrator and their login.

use vstd::prelude::*;

use crate::error::{failure, unexpected_message, AppError, ErrorKind, ErrorView};
use crate::jwt::{issue_token, token_for, AccessRole, TokenConfig, TokenConfigView};
use crate::password::{accept_password, matches_hash, password_matches};
use crate::search::{first, lemma_first_found};
use crate::text::{blank, is_blank, same_text};

verus! {

/// An administrator as the store holds them.
#[derive(Debug)]
pub struct Admin {
    pub admin_id: u128,
    pub email: String,
    pub password_hash: String,
    pub created_at: i64,
}

/// The credentials of an administrator who logs in.
#[derive(Debug)]
pub struct LoginAdmin {
    pub email: String,
    pub password: String,
}

/// An administrator known by address alone.
#[derive(Debug)]
pub struct AuthAdmin {
    pub email: String,
}

/// The administrators with the address `email`.
pub open spec fn addressed(email: Seq<char>) -> spec_fn(Admin) -> bool {
    |a: Admin| a.email@ == email
}

/// The position in `admins` of the first administrator with the address
/// `email`.
pub open spec fn admin_at(admins: Seq<Admin>, email: Seq<char>) -> Option<int> {
    first(admins, addressed(email))
}

/// Looks in `admins` for the first administrator with the address `email`.
pub fn find_admin(admins: &Vec<Admin>, email: &str) -> (at: Option<usize>)
    ensures
        match at {
            Some(i) => admin_at(admins@, email@) == Some(i as int) && i < admins@.len()
                && admins@[i as int].email@ == email@,
            None => admin_at(admins@, email@) is None,
        },
{
    let n = admins.len();
    let mut i: usize = 0;
    while i < n
        invariant
            n == admins@.len(),
            i <= n,
            forall|k: int| 0 <= k < i ==> !addressed(email@)(#[trigger] admins@[k]),
        decreases n - i,
    {
        if same_text(admins[i].email.as_str(), email) {
            proof {
                lemma_first_found(admins@, addressed(email@), i as int);
            }
            return Some(i);
        }
        i += 1;
    }
    None
}

/// Why an administrator's login is refused before any password is
/// compared, or `None` where there is a stored hash to compare with.
pub open spec fn admin_candidate_refusal(
    admins: Seq<Admin>,
    email: Seq<char>,
    password: Seq<char>,
) -> Option<ErrorView> {
    if blank(email) || blank(password) {
        Some(failure(ErrorKind::BadRequest, "invalid credentials"@))
    } else if admin_at(admins, email) is None {
        Some(failure(ErrorKind::Unauthorized, "invalid credentials"@))
    } else {
        None
    }
}

/// Why an administrator's login is refused before any token is made, or
/// `None` where the credentials hold.
pub open spec fn admin_login_refusal(admins: Seq<Admin>, email: Seq<char>, password: Seq<char>)
    -> Option<ErrorView> {
    if admin_candidate_refusal(admins, email, password) is Some {
        admin_candidate_refusal(admins, email, password)
    } else if !matches_hash(password, admins[admin_at(admins, email).unwrap()].password_hash@) {
        Some(failure(ErrorKind::Unauthorized, "invalid credentials"@))
    } else {
        None
    }
}

/// Finds the administrator who tries to log in: the first with the
/// address given, provided that neither address nor password is blank.
pub fn admin_candidate(admins: &Vec<Admin>, payload: &LoginAdmin) -> (r: Result<usize, AppError>)
    ensures
        match r {
            Ok(at) => {
                &&& admin_candidate_refusal(admins@, payload.email@, payload.password@) is None
                &&& admin_at(admins@, payload.email@) == Some(at as int)
                &&& at < admins@.len()
            },
            Err(e) => admin_candidate_refusal(admins@, payload.email@, payload.password@)
                == Some(e@),
        },
{
    if is_blank(payload.email.as_str()) {
        return Err(AppError::bad_request("invalid credentials"));
    }
    if is_blank(payload.password.as_str()) {
        return Err(AppError::bad_request("invalid credentials"));
    }
    match find_admin(admins, payload.email.as_str()) {
        Some(at) => Ok(at),
        None => Err(AppError::unauthorized("invalid credentials")),
    }
}

/// The token owed to the administrator whose credentials hold.
pub open spec fn admin_token(
    admins: Seq<Admin>,
    email: Seq<char>,
    now: int,
    config: TokenConfigView,
) -> Option<Seq<char>> {
    let a = admins[admin_at(admins, email).unwrap()];
    token_for(a.admin_id, a.email@, AccessRole::Admin, now, config)
}

/// Logs an administrator in: checks the credentials against `admins` and
/// issues a token in the administrator's role.
///
/// Credentials that hold give the token, unless it cannot be made.
pub fn login_admin(admins: &Vec<Admin>, payload: &LoginAdmin, now: i64, config: &TokenConfig) -> (r:
    Result<String, AppError>)
    ensures
        match r {
            Ok(token) => {
                &&& admin_login_refusal(admins@, payload.email@, payload.password@) is None
                &&& admin_token(admins@, payload.email@, now as int, config@) == Some(token@)
            },
            Err(e) => match admin_login_refusal(admins@, payload.email@, payload.password@) {
                Some(refusal) => e@ == refusal,
                None => {
                    &&& e@ == failure(ErrorKind::Unexpected, unexpected_message())
                    &&& admin_token(admins@, payload.email@, now as int, config@) is None
                },
            },
        },
{
    let at = match admin_candidate(admins, payload) {
        Ok(at) => at,
        Err(e) => {
            return Err(e);
        },
    };
    let a = &admins[at];
    let matched = password_matches(payload.password.as_str(), a.password_hash.as_str());
    if let Err(e) = accept_password(matched) {
        return Err(e);
    }
    issue_token(a.admin_id, a.email.as_str(), AccessRole::Admin, now, config)
}

} // verus!
