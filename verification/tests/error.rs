use space_booking::error::{status_code_of, AppError, ErrorKind};

#[test]
fn constructors_make_the_variant_they_are_named_after() {
    assert!(matches!(AppError::database("d"), AppError::DatabaseError(m) if m == "d"));
    assert!(matches!(AppError::bad_request("b"), AppError::BadRequest(m) if m == "b"));
    assert!(matches!(AppError::unauthorized("u"), AppError::Unauthorized(m) if m == "u"));
    assert!(matches!(AppError::forbidden("f"), AppError::Forbidden(m) if m == "f"));
    assert!(matches!(AppError::not_found("n"), AppError::NotFound(m) if m == "n"));
    assert!(matches!(AppError::validation("v"), AppError::ValidationError(m) if m == "v"));
    assert!(matches!(AppError::conflict("c"), AppError::Conflict(m) if m == "c"));
}

#[test]
fn each_class_has_its_status_code() {
    assert_eq!(AppError::database("x").status_code(), 500);
    assert_eq!(AppError::bad_request("x").status_code(), 400);
    assert_eq!(AppError::unauthorized("x").status_code(), 401);
    assert_eq!(AppError::forbidden("x").status_code(), 403);
    assert_eq!(AppError::not_found("x").status_code(), 404);
    assert_eq!(AppError::validation("x").status_code(), 400);
    assert_eq!(AppError::conflict("x").status_code(), 409);
    assert_eq!(AppError::Unexpected.status_code(), 500);
    assert_eq!(status_code_of(ErrorKind::Conflict), 409);
    assert_eq!(status_code_of(ErrorKind::NotFound), 404);
}

#[test]
fn kind_and_message_read_back_what_was_put_in() {
    let e = AppError::not_found("booking not found");
    assert_eq!(e.kind(), ErrorKind::NotFound);
    assert_eq!(e.message(), "booking not found");
    assert_eq!(AppError::Unexpected.kind(), ErrorKind::Unexpected);
    assert_eq!(AppError::Unexpected.message(), "Unexpected server error");
    assert_eq!(AppError::conflict("").message(), "");
}

#[test]
fn to_string_puts_the_class_before_the_message() {
    assert_eq!(AppError::database("q").to_string(), "Database query failed: q");
    assert_eq!(AppError::bad_request("q").to_string(), "Bad request: q");
    assert_eq!(AppError::unauthorized("q").to_string(), "Unauthorized: q");
    assert_eq!(AppError::forbidden("q").to_string(), "Forbidden: q");
    assert_eq!(AppError::not_found("q").to_string(), "Not Found: q");
    assert_eq!(AppError::validation("q").to_string(), "Validation error: q");
    assert_eq!(AppError::conflict("q").to_string(), "Conflict: q");
    assert_eq!(AppError::Unexpected.to_string(), "Unexpected server error");
}

#[test]
fn into_response_carries_status_message_and_class() {
    let r = AppError::validation("invalid timings").into_response();
    assert_eq!(r.status, 400);
    assert_eq!(r.message, "invalid timings");
    assert_eq!(r.kind, ErrorKind::ValidationError);
    let r = AppError::Unexpected.into_response();
    assert_eq!(r.status, 500);
    assert_eq!(r.message, "Unexpected server error");
    assert_eq!(r.kind, ErrorKind::Unexpected);
}
