//! Users: accounts that belong to no company and act in no role.

use vstd::prelude::*;

use crate::password::{matches_hash, password_matches};
use crate::search::{first, lemma_first_found};
use crate::text::same_text;

verus! {

/// A user as the store holds them.
#[derive(Debug)]
pub struct User {
    pub id: i32,
    pub name: String,
    pub email: String,
    pub password_hash: String,
}

/// A request to open an account.
#[derive(Debug)]
pub struct RegisterUser {
    pub name: String,
    pub email: String,
    pub password: String,
}

/// The credentials of a user who logs in.
#[derive(Debug)]
pub struct LoginUser {
    pub email: String,
    pub password: String,
}

/// Why a user's login is turned away: the status that answers it, and
/// the words.
#[derive(Debug)]
pub struct LoginRefusal {
    pub status: u16,
    pub message: String,
}

/// The users with the address `email`.
pub open spec fn addressed(email: Seq<char>) -> spec_fn(User) -> bool {
    |u: User| u.email@ == email
}

/// The position in `users` of the first user with the address `email`.
pub open spec fn user_at(users: Seq<User>, email: Seq<char>) -> Option<int> {
    first(users, addressed(email))
}

/// The words that turn a user's login away, or `None` where the
/// credentials hold. Every refusal answers with status 401.
pub open spec fn user_login_refusal(users: Seq<User>, email: Seq<char>, password: Seq<char>)
    -> Option<Seq<char>> {
    if user_at(users, email) is None {
        Some("invalid credentials"@)
    } else if !matches_hash(password, users[user_at(users, email).unwrap()].password_hash@) {
        Some("invalid password"@)
    } else {
        None
    }
}

/// Looks in `users` for the first user with the address `email`.
pub fn find_user(users: &Vec<User>, email: &str) -> (at: Option<usize>)
    ensures
        match at {
            Some(i) => user_at(users@, email@) == Some(i as int) && i < users@.len(),
            None => user_at(users@, email@) is None,
        },
{
    let n = users.len();
    let mut i: usize = 0;
    while i < n
        invariant
            n == users@.len(),
            i <= n,
            forall|k: int| 0 <= k < i ==> !addressed(email@)(#[trigger] users@[k]),
        decreases n - i,
    {
        if same_text(users[i].email.as_str(), email) {
            proof {
                lemma_first_found(users@, addressed(email@), i as int);
            }
            return Some(i);
        }
        i += 1;
    }
    None
}

/// Checks a user's credentials against `users` and hands out the position
/// of the user who logs in.
///
/// An unknown address and a password that does not match are both turned
/// away with status 401, each under its own words.
pub fn login_user(users: &Vec<User>, payload: &LoginUser) -> (r: Result<usize, LoginRefusal>)
    ensures
        match r {
            Ok(at) => {
                &&& user_login_refusal(users@, payload.email@, payload.password@) is None
                &&& user_at(users@, payload.email@) == Some(at as int)
                &&& at < users@.len()
            },
            Err(refusal) => {
                &&& refusal.status == 401
                &&& user_login_refusal(users@, payload.email@, payload.password@) == Some(
                    refusal.message@,
                )
            },
        },
{
    let at = match find_user(users, payload.email.as_str()) {
        Some(at) => at,
        None => {
            return Err(
                LoginRefusal { status: 401, message: "invalid credentials".to_string() },
            );
        },
    };
    if !password_matches(payload.password.as_str(), users[at].password_hash.as_str()) {
        return Err(LoginRefusal { status: 401, message: "invalid password".to_string() });
    }
    Ok(at)
}

} // verus!
