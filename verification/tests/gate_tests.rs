use erp_ai::auth::AuthContext;
use erp_ai::errors::DbError;
use erp_ai::iam_models::{ContextType, PermissionRequirement};
use erp_ai::json::as_str;
use erp_ai::permission_gate::{forbidden_body, permission_gate_finish, permission_gate_start, GateStep};

fn requirement() -> PermissionRequirement {
    PermissionRequirement::new("approve_order".to_string(), ContextType::Department)
}

const CTX: &str = "6f9619ff-8b86-d011-b42d-00c04fc964ff";
const CTX_ID: u128 = 0x6f9619ff_8b86_d011_b42d_00c04fc964ff;

#[test]
fn requirement_holds_its_fields() {
    let r = requirement();
    assert_eq!(r.permission_code, "approve_order");
    assert_eq!(r.context_type, ContextType::Department);
}

#[test]
fn unauthenticated_request_is_refused() {
    match permission_gate_start(&requirement(), None, Some(CTX)) {
        GateStep::Deny { status, body } => {
            assert_eq!(status, 401);
            assert_eq!(as_str(body.field("error")), Some("unauthorized".to_string()));
            assert_eq!(as_str(body.field("message")), Some("Authentication required".to_string()));
        }
        other => panic!("unexpected {:?}", other),
    }
}

#[test]
fn missing_or_bad_context_header() {
    let auth = AuthContext { user_id: 1, tenant_id: 2 };
    for header in [None, Some("not-a-uuid")] {
        match permission_gate_start(&requirement(), Some(auth), header) {
            GateStep::Deny { status, body } => {
                assert_eq!(status, 400);
                assert_eq!(as_str(body.field("error")), Some("bad_request".to_string()));
                assert_eq!(
                    as_str(body.field("message")),
                    Some("X-Context-Id header is required and must be a valid UUID".to_string())
                );
            }
            other => panic!("unexpected {:?}", other),
        }
    }
}

#[test]
fn valid_request_is_checked() {
    let auth = AuthContext { user_id: 1, tenant_id: 2 };
    match permission_gate_start(&requirement(), Some(auth), Some(CTX)) {
        GateStep::Check(c) => {
            assert_eq!(c.user_id, 1);
            assert_eq!(c.tenant_id, 2);
            assert_eq!(c.permission_code, "approve_order");
            assert_eq!(c.context_type, ContextType::Department);
            assert_eq!(c.context_id, CTX_ID);
        }
        other => panic!("unexpected {:?}", other),
    }
}

#[test]
fn held_permission_passes() {
    assert!(permission_gate_finish(&requirement(), CTX_ID, Ok(true)).is_none());
}

#[test]
fn missing_permission_is_forbidden() {
    let (status, body) = permission_gate_finish(&requirement(), CTX_ID, Ok(false)).unwrap();
    assert_eq!(status, 403);
    assert_eq!(body, forbidden_body(&requirement(), CTX_ID));
    assert_eq!(as_str(body.field("error")), Some("forbidden".to_string()));
    assert_eq!(
        as_str(body.field("message")),
        Some("You do not have the required permission in this context".to_string())
    );
    assert_eq!(as_str(body.field("required_permission")), Some("approve_order".to_string()));
    assert_eq!(as_str(body.field("context_type")), Some("Department".to_string()));
    assert_eq!(as_str(body.field("context_id")), Some(CTX.to_string()));
}

#[test]
fn failed_check_is_internal_error() {
    let (status, body) =
        permission_gate_finish(&requirement(), CTX_ID, Err(DbError::Other { text: "pool closed".into() })).unwrap();
    assert_eq!(status, 500);
    assert_eq!(as_str(body.field("error")), Some("internal_error".to_string()));
    assert_eq!(as_str(body.field("message")), Some("Failed to verify permissions".to_string()));
}
