use erp_ai::errors::{AppError, DbError};

#[test]
fn missing_row_is_not_found() {
    assert_eq!(AppError::from_db(DbError::RowNotFound), AppError::NotFound("Resource not found".to_string()));
}

#[test]
fn unique_violation_is_conflict() {
    let e = DbError::Database { code: Some("23505".to_string()), text: "duplicate key".to_string() };
    assert_eq!(AppError::from_db(e), AppError::Conflict("Resource already exists".to_string()));
}

#[test]
fn other_database_error_is_internal() {
    let e = DbError::Database { code: Some("23503".to_string()), text: "fk violation".to_string() };
    assert_eq!(AppError::from_db(e), AppError::Internal("fk violation".to_string()));
    let e = DbError::Database { code: None, text: "boom".to_string() };
    assert_eq!(AppError::from_db(e), AppError::Internal("boom".to_string()));
    let e = DbError::Other { text: "pool timed out".to_string() };
    assert_eq!(AppError::from_db(e), AppError::Internal("pool timed out".to_string()));
}

#[test]
fn responses_carry_status_and_type() {
    let cases = vec![
        (AppError::BadRequest("a".into()), 400, "bad_request", "a"),
        (AppError::Unauthorized("b".into()), 401, "unauthorized", "b"),
        (AppError::Forbidden("c".into()), 403, "forbidden", "c"),
        (AppError::NotFound("d".into()), 404, "not_found", "d"),
        (AppError::Conflict("e".into()), 409, "conflict", "e"),
    ];
    for (err, status, kind, msg) in cases {
        let r = err.to_response();
        assert_eq!(r.status, status);
        assert_eq!(r.error, kind);
        assert_eq!(r.message, msg);
    }
}

#[test]
fn internal_errors_hide_their_details() {
    let a = AppError::Internal("db password wrong".into()).to_response();
    let b = AppError::Internal("other".into()).to_response();
    assert_eq!(a.status, 500);
    assert_eq!(a.error, "internal_error");
    assert_eq!(a.message, "An internal error occurred");
    assert_eq!(a, b);
}
