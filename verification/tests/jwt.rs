use space_booking::error::ErrorKind;
use space_booking::jwt::{
    authenticate, claims_from_parts, claims_from_payload, issue_token, issued, token_expiry,
    verify_auth_token, AccessRole, AuthError, RawClaims, TokenConfig,
};

const NOW: i64 = 1_709_294_400;
const ID: u128 = 0xa1a2a3a4_b1b2_c1c2_d1d2_d3d4d5d6d7d8;

fn config() -> TokenConfig {
    TokenConfig::new(String::from("a secret of the process"), None)
}

fn raw(id: &str, sub: &str, role: &str, exp: u64) -> RawClaims {
    RawClaims {
        id: Some(String::from(id)),
        sub: Some(String::from(sub)),
        role: Some(String::from(role)),
        exp: Some(exp),
    }
}

#[test]
fn config_defaults_to_one_hour() {
    assert_eq!(config().ttl_hours(), 1);
    assert_eq!(config().secret(), "a secret of the process");
    assert_eq!(TokenConfig::new(String::from("s"), Some(8)).ttl_hours(), 8);
}

#[test]
fn expiry_is_issuance_plus_the_hours() {
    assert_eq!(token_expiry(NOW, 1), Some(1_709_298_000));
    assert_eq!(token_expiry(NOW, 24), Some(1_709_380_800));
    assert_eq!(token_expiry(0, 0), Some(0));
    assert_eq!(token_expiry(-1, 1), None);
    assert_eq!(token_expiry(NOW, u64::MAX), None);
    assert_eq!(token_expiry(i64::MAX, (u64::MAX - i64::MAX as u64) / 3_600 + 1), None);
}

#[test]
fn an_issued_token_verifies_to_the_claims_it_was_issued_for() {
    let token = issue_token(ID, "alice@example.com", AccessRole::Employee, NOW, &config()).unwrap();
    assert_eq!(token.split('.').count(), 3);
    let claims = verify_auth_token(&token, &config(), NOW).unwrap();
    assert_eq!(claims.id, ID);
    assert_eq!(claims.sub, "alice@example.com");
    assert_eq!(claims.role, AccessRole::Employee);
    assert_eq!(claims.exp, 1_709_298_000);
}

#[test]
fn each_role_survives_the_round_trip() {
    for role in [AccessRole::Admin, AccessRole::Manager, AccessRole::Employee] {
        let token = issue_token(7, "x@example.com", role, NOW, &config()).unwrap();
        assert_eq!(verify_auth_token(&token, &config(), NOW).unwrap().role, role);
    }
}

#[test]
fn the_same_claims_give_the_same_token() {
    let a = issue_token(ID, "alice@example.com", AccessRole::Manager, NOW, &config()).unwrap();
    let b = issue_token(ID, "alice@example.com", AccessRole::Manager, NOW, &config()).unwrap();
    let c = issue_token(ID, "alice@example.com", AccessRole::Manager, NOW + 1, &config()).unwrap();
    assert_eq!(a, b);
    assert_ne!(a, c);
}

#[test]
fn a_token_holds_until_its_last_second_and_not_after() {
    let token = issue_token(ID, "alice@example.com", AccessRole::Employee, NOW, &config()).unwrap();
    assert!(verify_auth_token(&token, &config(), NOW + 3_600).is_ok());
    assert_eq!(verify_auth_token(&token, &config(), NOW + 3_601).unwrap_err(), AuthError::InvalidToken);
    assert_eq!(
        verify_auth_token(&token, &config(), NOW + 86_400).unwrap_err(),
        AuthError::InvalidToken
    );
}

#[test]
fn a_token_under_another_secret_is_turned_away() {
    let token = issue_token(ID, "alice@example.com", AccessRole::Employee, NOW, &config()).unwrap();
    let other = TokenConfig::new(String::from("another secret"), None);
    assert_eq!(verify_auth_token(&token, &other, NOW).unwrap_err(), AuthError::InvalidToken);
}

#[test]
fn a_tampered_or_malformed_token_is_turned_away() {
    let token = issue_token(ID, "alice@example.com", AccessRole::Employee, NOW, &config()).unwrap();
    let mut parts: Vec<String> = token.split('.').map(String::from).collect();
    let forged_payload = parts[1].replace(&parts[1][..1], if parts[1].starts_with('A') { "B" } else { "A" });
    parts[1] = forged_payload;
    let forged = parts.join(".");
    assert_ne!(forged, token);
    assert!(verify_auth_token(&forged, &config(), NOW).is_err());
    assert!(verify_auth_token("", &config(), NOW).is_err());
    assert!(verify_auth_token("a.b.c", &config(), NOW).is_err());
    assert!(verify_auth_token("not a token", &config(), NOW).is_err());
    assert!(verify_auth_token(&token[..token.len() - 1], &config(), NOW).is_err());
}

#[test]
fn authenticate_reports_a_bad_token_as_unauthorized() {
    let e = authenticate("a.b.c", &config(), NOW).unwrap_err();
    assert_eq!(e.kind(), ErrorKind::Unauthorized);
    assert_eq!(e.message(), "invalid credentials");
    assert_eq!(e.status_code(), 401);
    let token = issue_token(ID, "alice@example.com", AccessRole::Admin, NOW, &config()).unwrap();
    let claims = authenticate(&token, &config(), NOW).unwrap();
    assert_eq!(claims.role, AccessRole::Admin);
    assert_eq!(claims.id, ID);
}

#[test]
fn a_token_turned_away_answers_401() {
    assert_eq!(AuthError::InvalidToken.status_code(), 401);
}

#[test]
fn issuing_before_the_epoch_fails_without_detail() {
    let e = issue_token(ID, "alice@example.com", AccessRole::Admin, -5, &config()).unwrap_err();
    assert_eq!(e.kind(), ErrorKind::Unexpected);
    assert_eq!(e.message(), "Unexpected server error");
    assert_eq!(e.status_code(), 500);
}

#[test]
fn claims_are_read_from_a_complete_payload() {
    let claims = claims_from_payload(
        raw("a1a2a3a4-b1b2-c1c2-d1d2-d3d4d5d6d7d8", "bob@example.com", "Manager", 2_000_000_000),
        NOW,
    )
    .unwrap();
    assert_eq!(claims.id, ID);
    assert_eq!(claims.sub, "bob@example.com");
    assert_eq!(claims.role, AccessRole::Manager);
    assert_eq!(claims.exp, 2_000_000_000);
}

#[test]
fn claims_expire_after_their_last_second() {
    let id = "a1a2a3a4-b1b2-c1c2-d1d2-d3d4d5d6d7d8";
    assert!(claims_from_payload(raw(id, "b", "Admin", 100), 100).is_ok());
    assert_eq!(claims_from_payload(raw(id, "b", "Admin", 100), 101).unwrap_err(), AuthError::InvalidToken);
    assert!(claims_from_payload(raw(id, "b", "Admin", 0), -7).is_ok());
}

#[test]
fn claims_need_every_field() {
    let id = "a1a2a3a4-b1b2-c1c2-d1d2-d3d4d5d6d7d8";
    let full = || raw(id, "b@example.com", "Employee", 2_000_000_000);
    assert!(claims_from_payload(full(), NOW).is_ok());
    assert!(claims_from_payload(RawClaims { id: None, ..full() }, NOW).is_err());
    assert!(claims_from_payload(RawClaims { sub: None, ..full() }, NOW).is_err());
    assert!(claims_from_payload(RawClaims { role: None, ..full() }, NOW).is_err());
    assert!(claims_from_payload(RawClaims { exp: None, ..full() }, NOW).is_err());
}

#[test]
fn claims_need_an_id_and_a_role_that_can_be_read() {
    assert!(claims_from_payload(raw("not an id", "b", "Employee", 2_000_000_000), NOW).is_err());
    assert!(claims_from_payload(raw("", "b", "Employee", 2_000_000_000), NOW).is_err());
    let id = "a1a2a3a4-b1b2-c1c2-d1d2-d3d4d5d6d7d8";
    assert!(claims_from_payload(raw(id, "b", "employee", 2_000_000_000), NOW).is_err());
    assert!(claims_from_payload(raw(id, "b", "Root", 2_000_000_000), NOW).is_err());
    assert!(claims_from_payload(raw(id, "b", "", 2_000_000_000), NOW).is_err());
}

#[test]
fn roles_are_written_as_their_names() {
    assert_eq!(AccessRole::Admin.as_str(), "Admin");
    assert_eq!(AccessRole::Manager.as_str(), "Manager");
    assert_eq!(AccessRole::Employee.as_str(), "Employee");
    assert_eq!(AccessRole::parse("Admin"), Some(AccessRole::Admin));
    assert_eq!(AccessRole::parse("Manager"), Some(AccessRole::Manager));
    assert_eq!(AccessRole::parse("Employee"), Some(AccessRole::Employee));
    assert_eq!(AccessRole::parse("admin"), None);
    assert_eq!(AccessRole::parse(" Admin"), None);
    assert_eq!(AccessRole::parse(""), None);
}

#[test]
fn claims_are_put_together_from_their_parts() {
    let claims = claims_from_parts(
        Some(9),
        Some(String::from("z@example.com")),
        Some(String::from("Employee")),
        Some(500),
        499,
    )
    .unwrap();
    assert_eq!(claims.id, 9);
    assert_eq!(claims.sub, "z@example.com");
    assert_eq!(claims.role, AccessRole::Employee);
    assert_eq!(claims.exp, 500);
}

#[test]
fn parts_that_are_missing_or_stale_give_no_claims() {
    let sub = || Some(String::from("z@example.com"));
    let role = || Some(String::from("Manager"));
    assert!(claims_from_parts(Some(9), sub(), role(), Some(500), 500).is_ok());
    assert_eq!(claims_from_parts(Some(9), sub(), role(), Some(500), 501).unwrap_err(), AuthError::InvalidToken);
    assert!(claims_from_parts(None, sub(), role(), Some(500), 0).is_err());
    assert!(claims_from_parts(Some(9), None, role(), Some(500), 0).is_err());
    assert!(claims_from_parts(Some(9), sub(), None, Some(500), 0).is_err());
    assert!(claims_from_parts(Some(9), sub(), Some(String::from("manager")), Some(500), 0).is_err());
    assert!(claims_from_parts(Some(9), sub(), role(), None, 0).is_err());
    assert!(claims_from_parts(Some(9), sub(), role(), Some(u64::MAX), i64::MAX).is_ok());
}

#[test]
fn a_signing_that_failed_is_reported_without_detail() {
    let failed = jsonwebtoken::errors::new_error(jsonwebtoken::errors::ErrorKind::InvalidKeyFormat);
    let e = issued(Err(failed)).unwrap_err();
    assert_eq!(e.kind(), ErrorKind::Unexpected);
    assert_eq!(e.message(), "Unexpected server error");
    assert_eq!(issued(Ok(String::from("a.b.c"))).unwrap(), "a.b.c");
}

fn signed(fields: Vec<(&str, serde_json::Value)>, header: &jsonwebtoken::Header) -> String {
    let mut body = serde_json::Map::new();
    for (name, value) in fields {
        body.insert(String::from(name), value);
    }
    let key = jsonwebtoken::EncodingKey::from_secret("a secret of the process".as_bytes());
    jsonwebtoken::encode(header, &body, &key).unwrap()
}

fn usual_fields() -> Vec<(&'static str, serde_json::Value)> {
    vec![
        ("id", serde_json::Value::from("a1a2a3a4-b1b2-c1c2-d1d2-d3d4d5d6d7d8")),
        ("sub", serde_json::Value::from("alice@example.com")),
        ("role", serde_json::Value::from("Employee")),
        ("exp", serde_json::Value::from(NOW as u64 + 60)),
    ]
}

#[test]
fn a_token_made_elsewhere_with_the_same_fields_verifies() {
    let token = signed(usual_fields(), &jsonwebtoken::Header::default());
    let claims = verify_auth_token(&token, &config(), NOW).unwrap();
    assert_eq!(claims.id, ID);
    assert_eq!(claims.sub, "alice@example.com");
    assert_eq!(claims.role, AccessRole::Employee);
    assert_eq!(claims.exp, NOW as u64 + 60);
    assert_eq!(
        token,
        issue_token(ID, "alice@example.com", AccessRole::Employee, NOW - 3_540, &config()).unwrap()
    );
}

#[test]
fn fields_beyond_the_four_are_passed_over() {
    let mut fields = usual_fields();
    fields.push(("iat", serde_json::Value::from(NOW as u64)));
    fields.push(("nickname", serde_json::Value::from("al")));
    let token = signed(fields, &jsonwebtoken::Header::default());
    assert!(verify_auth_token(&token, &config(), NOW).is_ok());
}

#[test]
fn a_well_signed_token_with_a_field_missing_or_misshapen_is_turned_away() {
    for missing in ["id", "sub", "role", "exp"] {
        let fields = usual_fields().into_iter().filter(|(name, _)| *name != missing).collect();
        let token = signed(fields, &jsonwebtoken::Header::default());
        assert!(verify_auth_token(&token, &config(), NOW).is_err(), "without {}", missing);
    }
    let misshapen = [
        ("id", serde_json::Value::from(7)),
        ("id", serde_json::Value::from("seven")),
        ("sub", serde_json::Value::from(7)),
        ("role", serde_json::Value::from("Root")),
        ("role", serde_json::Value::from(true)),
        ("exp", serde_json::Value::from("tomorrow")),
        ("exp", serde_json::Value::from(-5)),
        ("exp", serde_json::Value::from(1_709_294_460.5)),
    ];
    for (name, value) in misshapen {
        let mut fields: Vec<(&str, serde_json::Value)> =
            usual_fields().into_iter().filter(|(n, _)| *n != name).collect();
        fields.push((name, value.clone()));
        let token = signed(fields, &jsonwebtoken::Header::default());
        assert!(verify_auth_token(&token, &config(), NOW).is_err(), "{} = {}", name, value);
    }
}

#[test]
fn a_token_signed_by_another_scheme_is_turned_away() {
    let header = jsonwebtoken::Header::new(jsonwebtoken::Algorithm::HS384);
    let token = signed(usual_fields(), &header);
    assert!(verify_auth_token(&token, &config(), NOW).is_err());
}

#[test]
fn a_token_without_an_expiry_from_a_well_known_example_is_turned_away() {
    let token = "eyJhbGciOiJIUzI1NiIsInR5cCI6IkpXVCJ9.\
                 eyJzdWIiOiIxMjM0NTY3ODkwIiwibmFtZSI6IkpvaG4gRG9lIiwiaWF0IjoxNTE2MjM5MDIyfQ.\
                 SflKxwRJSMeKKF2QT4fwpMeJf36POk6yJV_adQssw5c";
    let theirs = TokenConfig::new(String::from("your-256-bit-secret"), None);
    assert!(verify_auth_token(token, &theirs, 0).is_err());
}
