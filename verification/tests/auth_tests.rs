use erp_ai::auth::{
    authenticate, build_claims, check_login, current_user, extract_bearer_token, missing_token_response,
    tenant_code, tenant_insert_error, user_insert_error, validate_registration, AuthContext, Claims,
    RegisterRequest, TokenErrorKind, User, UserInfo,
};
use erp_ai::errors::{AppError, DbError};
use erp_ai::password::hash_password;

fn user(hash: &str) -> User {
    User {
        id: 11,
        tenant_id: 22,
        email: "a@b.vn".into(),
        password_hash: hash.into(),
        full_name: "Nguyễn Văn A".into(),
        is_active: true,
        is_superadmin: true,
        created_at: 1,
        updated_at: 2,
    }
}

fn reg(email: &str, password: &str, name: &str) -> RegisterRequest {
    RegisterRequest { email: email.into(), password: password.into(), full_name: name.into(), tenant_name: "Acme".into() }
}

#[test]
fn registration_rules() {
    assert_eq!(validate_registration(&reg("a@b.vn", "12345678", "A")), Ok(()));
    assert_eq!(validate_registration(&reg("", "12345678", "A")), Err(AppError::BadRequest("All fields are required".into())));
    assert_eq!(validate_registration(&reg("a@b.vn", "", "A")), Err(AppError::BadRequest("All fields are required".into())));
    assert_eq!(validate_registration(&reg("a@b.vn", "12345678", "")), Err(AppError::BadRequest("All fields are required".into())));
    assert_eq!(
        validate_registration(&reg("a@b.vn", "1234567", "A")),
        Err(AppError::BadRequest("Password must be at least 8 characters".into()))
    );
    // the length is counted in bytes: four two-byte letters are enough
    assert_eq!(validate_registration(&reg("a@b.vn", "éééé", "A")), Ok(()));
}

#[test]
fn tenant_codes() {
    assert_eq!(tenant_code("My Company! Ltd"), "my-company-ltd");
    assert_eq!(tenant_code("Công Ty ABC"), "công-ty-abc");
    assert_eq!(tenant_code("a--b"), "a--b");
    assert_eq!(tenant_code("!!!"), "");
}

#[test]
fn claims_last_a_day() {
    let c: Claims = build_claims(&user("h"), 1_700_000_000);
    assert_eq!(c.sub, 11);
    assert_eq!(c.tenant_id, 22);
    assert_eq!(c.email, "a@b.vn");
    assert_eq!(c.iat, 1_700_000_000);
    assert_eq!(c.exp, 1_700_086_400);
}

#[test]
fn bearer_tokens() {
    assert_eq!(extract_bearer_token(Some("Bearer abc.def")), Some("abc.def".to_string()));
    assert_eq!(extract_bearer_token(Some("Bearer ")), Some("".to_string()));
    assert_eq!(extract_bearer_token(Some("bearer abc")), None);
    assert_eq!(extract_bearer_token(Some("Basic abc")), None);
    assert_eq!(extract_bearer_token(Some("Bearer")), None);
    assert_eq!(extract_bearer_token(None), None);
}

#[test]
fn token_check_outcomes() {
    let claims = Claims { sub: 5, tenant_id: 6, email: "x".into(), exp: 10, iat: 1 };
    assert_eq!(authenticate(Ok(claims)), Ok(AuthContext { user_id: 5, tenant_id: 6 }));
    for (kind, msg) in [
        (TokenErrorKind::ExpiredSignature, "Token has expired"),
        (TokenErrorKind::InvalidToken, "Invalid token format"),
        (TokenErrorKind::Other, "Token validation failed"),
    ] {
        let r = authenticate(Err(kind)).unwrap_err();
        assert_eq!(r.status, 401);
        assert_eq!(r.error, "unauthorized");
        assert_eq!(r.message, msg);
    }
    let m = missing_token_response();
    assert_eq!(m.status, 401);
    assert_eq!(m.message, "Missing or invalid Authorization header. Expected: Bearer <token>");
}

#[test]
fn login_checks_password() {
    let hash = hash_password("correct horse").unwrap();
    let ok = check_login(Some(user(&hash)), "correct horse").unwrap();
    assert_eq!(ok.id, 11);
    assert_eq!(
        check_login(Some(user(&hash)), "wrong").unwrap_err(),
        AppError::Unauthorized("Invalid email or password".into())
    );
    assert_eq!(check_login(None, "x").unwrap_err(), AppError::Unauthorized("Invalid email or password".into()));
    match check_login(Some(user("not-a-hash")), "x").unwrap_err() {
        AppError::Internal(m) => assert!(m.starts_with("Invalid password hash format: ")),
        other => panic!("unexpected {:?}", other),
    }
}

#[test]
fn current_user_info() {
    let info: UserInfo = current_user(Some(user("h"))).unwrap();
    assert_eq!(info.id, 11);
    assert_eq!(info.tenant_id, 22);
    assert_eq!(info.email, "a@b.vn");
    assert_eq!(info.full_name, "Nguyễn Văn A");
    assert!(info.is_superadmin);
    assert_eq!(current_user(None).unwrap_err(), AppError::NotFound("User not found".into()));
    let via_from: UserInfo = user("h").into();
    assert_eq!(via_from.email, "a@b.vn");
}

#[test]
fn insert_conflicts_name_the_duplicate() {
    let dup = || DbError::Database { code: Some("23505".into()), text: "dup".into() };
    assert_eq!(tenant_insert_error(dup(), "Acme"), AppError::Conflict("Tenant 'Acme' already exists".into()));
    assert_eq!(user_insert_error(dup(), "a@b.vn"), AppError::Conflict("Email 'a@b.vn' is already registered".into()));
    assert_eq!(tenant_insert_error(DbError::RowNotFound, "Acme"), AppError::NotFound("Resource not found".into()));
    assert_eq!(user_insert_error(DbError::Other { text: "io".into() }, "x"), AppError::Internal("io".into()));
}

#[test]
fn issued_claims_authenticate_their_user() {
    let u = user("x");
    let claims = build_claims(&u, 1_700_000_000);
    assert_eq!(claims.exp, 1_700_000_000 + 86400);
    assert_eq!(authenticate(Ok(claims)), Ok(AuthContext { user_id: 11, tenant_id: 22 }));
}
