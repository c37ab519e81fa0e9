use erp_ai::errors::AppError;
use erp_ai::password::{hash_password, verify_password};

#[test]
fn hash_then_verify() {
    let h = hash_password("mật khẩu 123").unwrap();
    assert!(h.starts_with("$argon2id$v=19$m=19456,t=2,p=1$"));
    assert_eq!(verify_password("mật khẩu 123", &h), Ok(true));
    assert_eq!(verify_password("mật khẩu 124", &h), Ok(false));
}

#[test]
fn salts_differ() {
    let a = hash_password("same").unwrap();
    let b = hash_password("same").unwrap();
    assert_ne!(a, b);
}

#[test]
fn malformed_hash_is_internal_error() {
    match verify_password("x", "plain-text") {
        Err(AppError::Internal(m)) => assert!(m.starts_with("Invalid password hash format: ")),
        other => panic!("unexpected {:?}", other),
    }
}

#[test]
fn empty_password_hashes_too() {
    assert!(hash_password("").unwrap().starts_with("$argon2id$v=19$m=19456,t=2,p=1$"));
}

#[test]
fn hash_has_phc_shape() {
    let h = hash_password("12345678").unwrap();
    let prefix = "$argon2id$v=19$m=19456,t=2,p=1$";
    assert_eq!(h.len(), prefix.len() + 22 + 1 + 43);
    let rest = &h[prefix.len()..];
    let (salt, out) = rest.split_at(22);
    let b64 = |c: char| c.is_ascii_alphanumeric() || c == '+' || c == '/';
    assert!(salt.chars().all(b64));
    assert!(out.starts_with('$'));
    assert!(out[1..].chars().all(b64));
}
