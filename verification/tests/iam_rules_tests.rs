use erp_ai::errors::AppError;
use erp_ai::iam_models::{
    ApprovalStatus, AssignCrossRoleInput, ContextType, CreateDepartmentRequest, CreatePermissionRequest,
    CreateRoleRequest, Department, PendingApproval,
};
use erp_ai::iam_rules::{
    approve_plan, assignment_from_payload, assignment_request_payload, department_placement,
    field_text_or_empty, message_body, reject_outcome, require_affected, require_found,
    require_name_and_code, tenant_context_sql, validate_create_department, validate_create_permission,
    validate_create_role,
};
use erp_ai::json::{as_str, Json};

fn department(path: &str, level: i32) -> Department {
    Department {
        id: 1,
        tenant_id: 2,
        name: "Hanoi".into(),
        code: "hanoi".into(),
        parent_id: None,
        path: path.into(),
        level,
        description: None,
        is_active: true,
        created_at: 0,
        updated_at: 0,
    }
}

fn obj(members: Vec<(&str, Json)>) -> Json {
    Json::Object(members.into_iter().map(|(k, v)| (k.to_string(), v)).collect())
}

#[test]
fn name_and_code_are_required() {
    assert_eq!(require_name_and_code("Sales", "sales"), Ok(()));
    let err = Err(AppError::BadRequest("name and code are required".into()));
    assert_eq!(require_name_and_code("", "sales"), err);
    assert_eq!(require_name_and_code("Sales", ""), err);
    let d = CreateDepartmentRequest { name: "Sales".into(), code: "".into(), parent_id: None, description: None };
    assert_eq!(validate_create_department(&d), err);
    let r = CreateRoleRequest { name: "".into(), code: "head".into(), description: None };
    assert_eq!(validate_create_role(&r), err);
    let r = CreateRoleRequest { name: "Head".into(), code: "head".into(), description: None };
    assert_eq!(validate_create_role(&r), Ok(()));
}

#[test]
fn permission_needs_code_and_name() {
    let p = CreatePermissionRequest { code: "".into(), name: "Approve".into(), description: None, module: None };
    assert_eq!(validate_create_permission(&p), Err(AppError::BadRequest("code and name are required".into())));
    let p = CreatePermissionRequest { code: "approve_order".into(), name: "Approve".into(), description: None, module: Some("sales".into()) };
    assert_eq!(validate_create_permission(&p), Ok(()));
}

#[test]
fn root_department_placement() {
    assert_eq!(department_placement(None, "company"), Ok(("company".to_string(), 0)));
}

#[test]
fn child_department_placement() {
    let parent = department("company.hanoi", 1);
    assert_eq!(
        department_placement(Some(Some(&parent)), "engineering"),
        Ok(("company.hanoi.engineering".to_string(), 2))
    );
}

#[test]
fn missing_parent_department() {
    assert_eq!(
        department_placement(Some(None), "engineering"),
        Err(AppError::NotFound("Parent department not found".into()))
    );
}

#[test]
fn found_and_affected_rows() {
    assert_eq!(require_found(Some(5), "Role not found"), Ok(5));
    assert_eq!(require_found::<i32>(None, "Role not found"), Err(AppError::NotFound("Role not found".into())));
    assert_eq!(require_affected(1, "Role not found"), Ok(()));
    assert_eq!(require_affected(0, "Role not found"), Err(AppError::NotFound("Role not found".into())));
}

#[test]
fn confirmation_body() {
    let b = message_body("Department deleted");
    assert_eq!(as_str(b.field("message")), Some("Department deleted".to_string()));
}

#[test]
fn tenant_setting_statement() {
    let id: u128 = 0x0123_4567_89ab_cdef_0011_2233_4455_6677;
    assert_eq!(
        tenant_context_sql(id),
        "SET LOCAL app.current_tenant_id = '01234567-89ab-cdef-0011-223344556677'"
    );
}

#[test]
fn request_payload_round_trip() {
    let input = AssignCrossRoleInput { user_id: 1, role_id: 2, context_type: ContextType::Project, context_id: 3 };
    let p = assignment_request_payload(&input);
    assert_eq!(as_str(p.field("user_id")), Some("00000000-0000-0000-0000-000000000001".to_string()));
    assert_eq!(as_str(p.field("role_id")), Some("00000000-0000-0000-0000-000000000002".to_string()));
    assert_eq!(as_str(p.field("context_type")), Some("PROJECT".to_string()));
    assert_eq!(as_str(p.field("context_id")), Some("00000000-0000-0000-0000-000000000003".to_string()));
    let f = assignment_from_payload(&p);
    assert_eq!(f.user_id, "00000000-0000-0000-0000-000000000001");
    assert_eq!(f.context_type, "PROJECT");
}

#[test]
fn missing_payload_fields_read_empty() {
    let p = obj(vec![("user_id", Json::Number("7".into()))]);
    assert_eq!(field_text_or_empty(&p, "user_id"), "");
    assert_eq!(field_text_or_empty(&p, "role_id"), "");
    assert_eq!(field_text_or_empty(&Json::Null, "role_id"), "");
}

fn pending(action: &str, payload: Json) -> PendingApproval {
    PendingApproval {
        id: 9,
        tenant_id: 2,
        action_type: action.into(),
        payload,
        status: ApprovalStatus::AwaitingHumanApproval,
        requested_by: 4,
        approved_by: None,
        reason: None,
        created_at: 0,
        resolved_at: None,
    }
}

#[test]
fn approving_an_assignment() {
    let p = obj(vec![
        ("user_id", Json::text("u")),
        ("role_id", Json::text("r")),
        ("context_type", Json::text("Department")),
        ("context_id", Json::text("c")),
    ]);
    let plan = approve_plan(Some(pending("assign_cross_role", p))).unwrap().unwrap();
    assert_eq!(plan.user_id, "u");
    assert_eq!(plan.role_id, "r");
    assert_eq!(plan.context_type, "Department");
    assert_eq!(plan.context_id, "c");
}

#[test]
fn approving_other_actions_and_missing_requests() {
    assert!(matches!(approve_plan(Some(pending("create_department", Json::Null))), Ok(None)));
    assert!(matches!(
        approve_plan(None),
        Err(AppError::NotFound(m)) if m == "Pending approval not found"
    ));
}

#[test]
fn rejecting() {
    assert_eq!(reject_outcome(1), Ok(()));
    assert_eq!(reject_outcome(0), Err(AppError::NotFound("Pending approval not found".into())));
}

#[test]
fn confirmation_body_has_only_its_message() {
    let b = message_body("Role deactivated");
    assert_eq!(b, Json::Object(vec![("message".to_string(), Json::text("Role deactivated"))]));
}

#[test]
fn request_payload_members_in_order() {
    let input = AssignCrossRoleInput { user_id: 1, role_id: 2, context_type: ContextType::Department, context_id: 3 };
    match assignment_request_payload(&input) {
        Json::Object(m) => {
            let keys: Vec<&str> = m.iter().map(|(k, _)| k.as_str()).collect();
            assert_eq!(keys, vec!["user_id", "role_id", "context_type", "context_id"]);
            assert_eq!(m[2].1, Json::text("DEPARTMENT"));
        }
        other => panic!("not an object: {:?}", other),
    }
}
