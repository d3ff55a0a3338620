//! Identity assertions: who the caller is, in which role, and until when.

use vstd::prelude::*;

use crate::error::{failure, unexpected_message, AppError, ErrorKind};
use crate::text::same_text;

verus! {

/// The role an identity acts in. The three roles are disjoint: none implies
/// another.
#[derive(Clone, Copy, Debug, PartialEq, Eq, Structural)]
pub enum AccessRole {
    Admin,
    Manager,
    Employee,
}

/// A verified identity assertion.
#[derive(Debug)]
pub struct Claims {
    /// The subject's id.
    pub id: u128,
    /// The subject's email address.
    pub sub: String,
    /// The role fixed when the assertion was issued.
    pub role: AccessRole,
    /// The last second, since the Unix epoch, at which the assertion holds.
    pub exp: u64,
}

/// Mathematical value of a [`Claims`].
pub struct ClaimsView {
    pub id: u128,
    pub sub: Seq<char>,
    pub role: AccessRole,
    pub exp: u64,
}

impl View for Claims {
    type V = ClaimsView;

    open spec fn view(&self) -> ClaimsView {
        ClaimsView { id: self.id, sub: self.sub@, role: self.role, exp: self.exp }
    }
}

/// The word that stands for a role inside a token.
pub open spec fn role_text(role: AccessRole) -> Seq<char> {
    match role {
        AccessRole::Admin => "Admin"@,
        AccessRole::Manager => "Manager"@,
        AccessRole::Employee => "Employee"@,
    }
}

/// The role that a word inside a token stands for, if any.
pub open spec fn role_of_text(text: Seq<char>) -> Option<AccessRole> {
    if text == "Admin"@ {
        Some(AccessRole::Admin)
    } else if text == "Manager"@ {
        Some(AccessRole::Manager)
    } else if text == "Employee"@ {
        Some(AccessRole::Employee)
    } else {
        None
    }
}

impl AccessRole {
    /// The word that stands for this role inside a token.
    pub fn as_str(&self) -> (word: &'static str)
        ensures
            word@ == role_text(*self),
    {
        match self {
            AccessRole::Admin => "Admin",
            AccessRole::Manager => "Manager",
            AccessRole::Employee => "Employee",
        }
    }

    /// Reads a role from the word that stands for it.
    pub fn parse(text: &str) -> (role: Option<AccessRole>)
        ensures
            role == role_of_text(text@),
    {
        if same_text(text, "Admin") {
            Some(AccessRole::Admin)
        } else if same_text(text, "Manager") {
            Some(AccessRole::Manager)
        } else if same_text(text, "Employee") {
            Some(AccessRole::Employee)
        } else {
            None
        }
    }
}

/// Reading the word written for a role gives that role back.
pub proof fn lemma_role_text_round_trip(role: AccessRole)
    ensures
        role_of_text(role_text(role)) == Some(role),
{
    reveal_strlit("Admin");
    reveal_strlit("Manager");
    reveal_strlit("Employee");
    assert("Manager"@.len() == 7);
    assert("Employee"@.len() == 8);
}

/// The token settings of the process: the signing secret and how long an
/// issued token lives. Built once at startup and only read afterwards.
pub struct TokenConfig {
    secret: String,
    ttl_hours: u64,
}

/// Mathematical value of a [`TokenConfig`].
pub struct TokenConfigView {
    pub secret: Seq<char>,
    pub ttl_hours: u64,
}

impl View for TokenConfig {
    type V = TokenConfigView;

    closed spec fn view(&self) -> TokenConfigView {
        TokenConfigView { secret: self.secret@, ttl_hours: self.ttl_hours }
    }
}

/// Hours that a token lives where nothing else is configured.
pub const DEFAULT_TTL_HOURS: u64 = 1;

/// Seconds in an hour.
pub const SECONDS_PER_HOUR: u64 = 3_600;

impl TokenConfig {
    /// The settings with the given secret and lifetime; without a
    /// lifetime, tokens live for [`DEFAULT_TTL_HOURS`].
    pub fn new(secret: String, ttl_hours: Option<u64>) -> (config: Self)
        ensures
            config@.secret == secret@,
            config@.ttl_hours == match ttl_hours {
                Some(h) => h,
                None => DEFAULT_TTL_HOURS,
            },
    {
        let hours = match ttl_hours {
            Some(h) => h,
            None => DEFAULT_TTL_HOURS,
        };
        TokenConfig { secret, ttl_hours: hours }
    }

    /// The signing secret.
    pub fn secret(&self) -> (secret: &str)
        ensures
            secret@ == self@.secret,
    {
        self.secret.as_str()
    }

    /// Hours that an issued token lives.
    pub fn ttl_hours(&self) -> (hours: u64)
        ensures
            hours == self@.ttl_hours,
    {
        self.ttl_hours
    }
}

/// The claims as they stand in a token's payload, before any of them is
/// read: each field as text or number, or absent.
#[derive(Debug)]
pub struct RawClaims {
    pub id: Option<String>,
    pub sub: Option<String>,
    pub role: Option<String>,
    pub exp: Option<u64>,
}

/// Mathematical value of a [`RawClaims`].
pub struct PayloadView {
    pub id: Option<Seq<char>>,
    pub sub: Option<Seq<char>>,
    pub role: Option<Seq<char>>,
    pub exp: Option<u64>,
}

impl View for RawClaims {
    type V = PayloadView;

    open spec fn view(&self) -> PayloadView {
        PayloadView {
            id: text_view(self.id),
            sub: text_view(self.sub),
            role: text_view(self.role),
            exp: self.exp,
        }
    }
}

/// Why a token is turned away. Expired, forged and malformed tokens are
/// not told apart.
#[derive(Clone, Copy, Debug, PartialEq, Eq, Structural)]
pub enum AuthError {
    InvalidToken,
}

impl AuthError {
    /// The HTTP status code that answers a token turned away.
    pub fn status_code(&self) -> (code: u16)
        ensures
            code == 401,
    {
        401
    }
}

/// The name, in a token's payload, of the field that holds the subject's
/// id.
pub const ID_FIELD: &'static str = "id";

/// The name of the field that holds the subject's email address.
pub const SUBJECT_FIELD: &'static str = "sub";

/// The name of the field that holds the role.
pub const ROLE_FIELD: &'static str = "role";

/// The name of the field that holds the expiry.
pub const EXPIRY_FIELD: &'static str = "exp";

/// Declares `jsonwebtoken::errors::Error`. Nothing is said of what it
/// holds: every such error is reported alike.
#[verifier::external_type_specification]
#[verifier::external_body]
pub struct ExTokenError(jsonwebtoken::errors::Error);

/// The compact HS256 token that `jsonwebtoken::encode`, with the HMAC
/// provider built into that crate, makes of the claims `id`, `sub`, `role`
/// and `exp` under `secret`, or nothing where it fails.
pub uninterp spec fn signed_token(
    id: u128,
    sub: Seq<char>,
    role: Seq<char>,
    exp: u64,
    secret: Seq<char>,
) -> Option<Seq<char>>;

/// The payload that `jsonwebtoken::decode`, with the HMAC provider built
/// into that crate, reads from `token` where its HS256 signature under
/// `secret` holds, and nothing where it turns the token away.
pub uninterp spec fn signed_payload(token: Seq<char>, secret: Seq<char>) -> Option<PayloadView>;

/// The id that `uuid::Uuid::parse_str` reads from `text`, if it reads one.
pub uninterp spec fn uuid_of_text(text: Seq<char>) -> Option<u128>;

/// Calls `jsonwebtoken::encode` with the default header (HS256) on a JSON
/// object with the four fields named by [`ID_FIELD`] (the id written as a
/// UUID), [`SUBJECT_FIELD`], [`ROLE_FIELD`] and [`EXPIRY_FIELD`], signed
/// with `secret`.
///
/// Not proved: that the outcome, token or failure, depends on these five
/// values alone. This relies on the HMAC provider that is built into
/// `jsonwebtoken`: the crate lets a process install another provider
/// once, and neither this library nor the service around it does so.
#[verifier::external_body]
fn sign_claims(id: u128, sub: &str, role: &str, exp: u64, secret: &str) -> (r: Result<
    String,
    jsonwebtoken::errors::Error,
>)
    ensures
        match r {
            Ok(token) => signed_token(id, sub@, role@, exp, secret@) == Some(token@),
            Err(_) => signed_token(id, sub@, role@, exp, secret@) is None,
        },
{
    let mut body = serde_json::Map::new();
    let id = uuid::Uuid::from_u128(id).to_string();
    body.insert(String::from(ID_FIELD), serde_json::Value::from(id));
    body.insert(String::from(SUBJECT_FIELD), serde_json::Value::from(sub));
    body.insert(String::from(ROLE_FIELD), serde_json::Value::from(role));
    body.insert(String::from(EXPIRY_FIELD), serde_json::Value::from(exp));
    let key = jsonwebtoken::EncodingKey::from_secret(secret.as_bytes());
    jsonwebtoken::encode(&jsonwebtoken::Header::default(), &body, &key)
}

/// Calls `jsonwebtoken::decode` for HS256 with the check of `exp` against
/// the clock switched off, and hands out the payload's fields of the same
/// four names as the signing writes: the id, the subject and the role
/// where they are JSON strings, the expiry where it is a non-negative
/// integer.
///
/// Not proved: that the outcome depends on the token and the secret alone.
/// This relies on the HMAC provider that is built into `jsonwebtoken`, as
/// the signing does.
#[verifier::external_body]
fn open_token(token: &str, secret: &str) -> (r: Result<RawClaims, jsonwebtoken::errors::Error>)
    ensures
        match r {
            Ok(raw) => signed_payload(token@, secret@) == Some(raw@),
            Err(_) => signed_payload(token@, secret@) is None,
        },
{
    let mut rules = jsonwebtoken::Validation::new(jsonwebtoken::Algorithm::HS256);
    rules.validate_exp = false;
    let key = jsonwebtoken::DecodingKey::from_secret(secret.as_bytes());
    let body = jsonwebtoken::decode::<serde_json::Value>(token, &key, &rules)?.claims;
    Ok(RawClaims {
        id: body.get(ID_FIELD).and_then(serde_json::Value::as_str).map(String::from),
        sub: body.get(SUBJECT_FIELD).and_then(serde_json::Value::as_str).map(String::from),
        role: body.get(ROLE_FIELD).and_then(serde_json::Value::as_str).map(String::from),
        exp: body.get(EXPIRY_FIELD).and_then(serde_json::Value::as_u64),
    })
}

/// Calls `uuid::Uuid::parse_str` and, where it reads an id, `Uuid::as_u128`.
///
/// Not proved: that the outcome depends on the text alone.
#[verifier::external_body]
fn parse_uuid(text: &str) -> (id: Option<u128>)
    ensures
        id == uuid_of_text(text@),
{
    match uuid::Uuid::parse_str(text) {
        Ok(id) => Some(id.as_u128()),
        Err(_) => None,
    }
}

/// The last second of a token issued at `now` that lives `ttl_hours`
/// hours, where `now` does not lie before the epoch and that second can be
/// written down.
pub open spec fn expiry(now: int, ttl_hours: int) -> Option<u64> {
    if 0 <= now && now + ttl_hours * SECONDS_PER_HOUR <= u64::MAX {
        Some((now + ttl_hours * SECONDS_PER_HOUR) as u64)
    } else {
        None
    }
}

/// Computes the last second of a token issued at `now`.
pub fn token_expiry(now: i64, ttl_hours: u64) -> (exp: Option<u64>)
    ensures
        exp == expiry(now as int, ttl_hours as int),
{
    if now < 0 {
        return None;
    }
    match ttl_hours.checked_mul(SECONDS_PER_HOUR) {
        Some(life) => (now as u64).checked_add(life),
        None => None,
    }
}

/// The claims that the fields of a payload amount to at the second
/// `now`, the id already read: nothing where a field is missing, the role
/// is none of the three, or the expiry lies in the past.
pub open spec fn claims_of_parts(
    id: Option<u128>,
    sub: Option<Seq<char>>,
    role: Option<Seq<char>>,
    exp: Option<u64>,
    now: int,
) -> Option<ClaimsView> {
    if id is Some && sub is Some && role is Some && role_of_text(role.unwrap()) is Some && exp
        is Some && exp.unwrap() >= now {
        Some(
            ClaimsView {
                id: id.unwrap(),
                sub: sub.unwrap(),
                role: role_of_text(role.unwrap()).unwrap(),
                exp: exp.unwrap(),
            },
        )
    } else {
        None
    }
}

/// The id that the text of a payload's `id` field stands for.
pub open spec fn id_of_field(id: Option<Seq<char>>) -> Option<u128> {
    match id {
        Some(text) => uuid_of_text(text),
        None => None,
    }
}

/// The claims that a payload amounts to at the second `now`, or nothing
/// where a field is missing or unreadable or the expiry lies in the past.
pub open spec fn claims_of(payload: PayloadView, now: int) -> Option<ClaimsView> {
    claims_of_parts(id_of_field(payload.id), payload.sub, payload.role, payload.exp, now)
}

/// The view of a piece of text that may be absent.
pub open spec fn text_view(text: Option<String>) -> Option<Seq<char>> {
    match text {
        Some(t) => Some(t@),
        None => None,
    }
}

/// Puts claims together from the fields of a payload, the id already
/// read, and turns them away where a field is missing, the role is none
/// of the three, or the expiry lies before `now`.
pub fn claims_from_parts(
    id: Option<u128>,
    sub: Option<String>,
    role: Option<String>,
    exp: Option<u64>,
    now: i64,
) -> (r: Result<Claims, AuthError>)
    ensures
        match r {
            Ok(claims) => claims_of_parts(id, text_view(sub), text_view(role), exp, now as int)
                == Some(claims@),
            Err(e) => e == AuthError::InvalidToken && claims_of_parts(
                id,
                text_view(sub),
                text_view(role),
                exp,
                now as int,
            ) is None,
        },
{
    let id = match id {
        Some(id) => id,
        None => {
            return Err(AuthError::InvalidToken);
        },
    };
    let sub = match sub {
        Some(text) => text,
        None => {
            return Err(AuthError::InvalidToken);
        },
    };
    let role = match role {
        Some(text) => match AccessRole::parse(text.as_str()) {
            Some(role) => role,
            None => {
                return Err(AuthError::InvalidToken);
            },
        },
        None => {
            return Err(AuthError::InvalidToken);
        },
    };
    let exp = match exp {
        Some(exp) => exp,
        None => {
            return Err(AuthError::InvalidToken);
        },
    };
    if now >= 0 && exp < now as u64 {
        return Err(AuthError::InvalidToken);
    }
    Ok(Claims { id, sub, role, exp })
}

/// Reads the claims out of a payload whose signature holds, and turns
/// away a payload that lacks a field, names no role, carries no id, or
/// has expired before `now`.
pub fn claims_from_payload(raw: RawClaims, now: i64) -> (r: Result<Claims, AuthError>)
    ensures
        match r {
            Ok(claims) => claims_of(raw@, now as int) == Some(claims@),
            Err(e) => e == AuthError::InvalidToken && claims_of(raw@, now as int) is None,
        },
{
    let RawClaims { id, sub, role, exp } = raw;
    let id = match id {
        Some(text) => parse_uuid(text.as_str()),
        None => None,
    };
    claims_from_parts(id, sub, role, exp, now)
}

/// Checks a bearer token at the second `now` and hands out its claims.
///
/// The token is turned away where its signature under the configured
/// secret does not hold, where it is malformed, and where its payload does
/// not amount to claims at `now`.
pub fn verify_auth_token(token: &str, config: &TokenConfig, now: i64) -> (r: Result<
    Claims,
    AuthError,
>)
    ensures
        match r {
            Ok(claims) => signed_payload(token@, config@.secret) matches Some(payload)
                && claims_of(payload, now as int) == Some(claims@),
            Err(_) => signed_payload(token@, config@.secret) matches Some(payload) ==> claims_of(
                payload,
                now as int,
            ) is None,
        },
{
    match open_token(token, config.secret()) {
        Ok(raw) => claims_from_payload(raw, now),
        Err(_) => Err(AuthError::InvalidToken),
    }
}

/// The token owed to the subject `id` with address `email` in `role` at
/// the second `now`: the one signed with the expiry that the settings
/// give, or nothing where that expiry cannot be written down or the
/// signing fails.
pub open spec fn token_for(
    id: u128,
    email: Seq<char>,
    role: AccessRole,
    now: int,
    config: TokenConfigView,
) -> Option<Seq<char>> {
    match expiry(now, config.ttl_hours as int) {
        Some(exp) => signed_token(id, email, role_text(role), exp, config.secret),
        None => None,
    }
}

/// What is made of the outcome of signing: the token, or a failure
/// without detail.
pub fn issued(outcome: Result<String, jsonwebtoken::errors::Error>) -> (r: Result<String, AppError>)
    ensures
        match outcome {
            Ok(token) => r == Ok::<String, AppError>(token),
            Err(_) => r matches Err(e) && e@ == failure(
                ErrorKind::Unexpected,
                unexpected_message(),
            ),
        },
{
    match outcome {
        Ok(token) => Ok(token),
        Err(_) => Err(AppError::Unexpected),
    }
}

/// Issues a token for the subject `id` with address `email` in `role`, to
/// expire the configured number of hours after `now`.
///
/// The token is owed wherever the expiry can be written down and the
/// signing does not fail; it is refused, without detail, only there.
pub fn issue_token(id: u128, email: &str, role: AccessRole, now: i64, config: &TokenConfig) -> (r:
    Result<String, AppError>)
    ensures
        match r {
            Ok(token) => token_for(id, email@, role, now as int, config@) == Some(token@),
            Err(e) => {
                &&& e@ == failure(ErrorKind::Unexpected, unexpected_message())
                &&& token_for(id, email@, role, now as int, config@) is None
            },
        },
{
    let exp = match token_expiry(now, config.ttl_hours()) {
        Some(exp) => exp,
        None => {
            return Err(AppError::Unexpected);
        },
    };
    issued(sign_claims(id, email, role.as_str(), exp, config.secret()))
}

/// Checks a bearer token as [`verify_auth_token`] does, and reports a
/// token that is turned away as the error that answers the request.
pub fn authenticate(token: &str, config: &TokenConfig, now: i64) -> (r: Result<Claims, AppError>)
    ensures
        match r {
            Ok(claims) => signed_payload(token@, config@.secret) matches Some(payload)
                && claims_of(payload, now as int) == Some(claims@),
            Err(e) => {
                &&& e@ == failure(ErrorKind::Unauthorized, "invalid credentials"@)
                &&& signed_payload(token@, config@.secret) matches Some(payload) ==> claims_of(
                    payload,
                    now as int,
                ) is None
            },
        },
{
    match verify_auth_token(token, config, now) {
        Ok(claims) => Ok(claims),
        Err(_) => Err(AppError::unauthorized("invalid credentials")),
    }
}

} // verus!
