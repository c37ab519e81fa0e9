use erp_ai::iam_models::{ApprovalStatus, AssignCrossRoleInput, ContextType, EffectivePermission, PendingApproval};
use erp_ai::iam_rules::approve_plan;
use erp_ai::json::{as_str, Json};
use erp_ai::skills::{
    assign_cross_role_metadata, assign_cross_role_step, assignment_payload, effective_permission_json,
    effective_permissions_result, get_user_effective_permissions_metadata, register_iam_skills,
    AssignCrossRoleAction, AssignCrossRoleEvent, AssignCrossRoleState, SkillResult,
    ASSIGN_CROSS_ROLE_SKILL, EFFECTIVE_PERMISSIONS_SKILL,
};

fn input() -> AssignCrossRoleInput {
    AssignCrossRoleInput { user_id: 1, role_id: 2, context_type: ContextType::Branch, context_id: 3 }
}

fn id(n: u8) -> String {
    format!("00000000-0000-0000-0000-{:012x}", n)
}

fn keys(v: &Json) -> Vec<String> {
    match v {
        Json::Object(m) => m.iter().map(|(k, _)| k.clone()).collect(),
        _ => panic!("not an object"),
    }
}

#[test]
fn skills_are_registered_in_order() {
    let skills = register_iam_skills();
    assert_eq!(skills.len(), 2);
    assert_eq!(skills[0].name, EFFECTIVE_PERMISSIONS_SKILL);
    assert_eq!(skills[1].name, ASSIGN_CROSS_ROLE_SKILL);
    assert_eq!(skills[0].name, "get_user_effective_permissions");
    assert_eq!(skills[1].name, "assign_cross_role");
}

#[test]
fn effective_permissions_metadata() {
    let m = get_user_effective_permissions_metadata();
    assert_eq!(m.usage_examples.len(), 3);
    assert_eq!(keys(&m.parameters), vec!["type", "required", "properties"]);
    assert_eq!(as_str(m.parameters.field("type")), Some("object".to_string()));
    let required = m.parameters.field("required").unwrap();
    assert_eq!(as_str(required.element(0)), Some("user_id".to_string()));
    assert_eq!(as_str(required.element(1)), Some("context_id".to_string()));
    assert_eq!(keys(m.parameters.field("properties").unwrap()), vec!["user_id", "context_id"]);
    assert_eq!(keys(m.return_schema.field("properties").unwrap()), vec!["permissions"]);
}

#[test]
fn assign_cross_role_metadata_schema() {
    let m = assign_cross_role_metadata();
    assert!(m.description.contains("AWAITING_HUMAN_APPROVAL"));
    assert_eq!(
        keys(m.parameters.field("properties").unwrap()),
        vec!["user_id", "role_id", "context_type", "context_id"]
    );
    assert_eq!(keys(m.return_schema.field("properties").unwrap()), vec!["approval_id", "status"]);
}

fn permission() -> EffectivePermission {
    EffectivePermission {
        permission_id: 10,
        permission_code: "approve_order".into(),
        permission_name: "Duyệt đơn".into(),
        granted_by_role_id: 11,
        granted_by_role_name: "Trưởng phòng".into(),
        context_type: ContextType::Department,
        context_id: 3,
    }
}

#[test]
fn permission_as_json() {
    let v = effective_permission_json(&permission());
    assert_eq!(
        keys(&v),
        vec![
            "permission_id",
            "permission_code",
            "permission_name",
            "granted_by_role_id",
            "granted_by_role_name",
            "context_type",
            "context_id"
        ]
    );
    assert_eq!(as_str(v.field("permission_id")), Some(id(10)));
    assert_eq!(as_str(v.field("context_type")), Some("Department".to_string()));
}

#[test]
fn effective_permissions_answer() {
    let r = effective_permissions_result(1, 3, vec![permission(), permission()]);
    assert!(r.success);
    assert!(r.approval_status.is_none());
    assert_eq!(
        r.message,
        format!("Tìm thấy 2 quyền có hiệu lực của user {} tại context {}", id(1), id(3))
    );
    let d = r.data.unwrap();
    assert_eq!(keys(&d), vec!["user_id", "context_id", "total_permissions", "permissions"]);
    assert_eq!(d.field("total_permissions"), Some(&Json::Number("2".into())));
    assert!(d.field("permissions").unwrap().element(1).is_some());
    assert!(d.field("permissions").unwrap().element(2).is_none());
}

#[test]
fn no_effective_permissions() {
    let r = effective_permissions_result(1, 3, vec![]);
    assert!(r.message.starts_with("Tìm thấy 0 quyền"));
}

fn finish(a: AssignCrossRoleAction) -> SkillResult {
    match a {
        AssignCrossRoleAction::Finish(r) => r,
        other => panic!("unexpected {:?}", other),
    }
}

#[test]
fn assignment_request_is_created_after_checks() {
    let input = input();
    let (s, a) = assign_cross_role_step(&input, AssignCrossRoleState::Start, AssignCrossRoleEvent::Begin);
    assert!(matches!(s, AssignCrossRoleState::CheckingRole));
    assert!(matches!(a, AssignCrossRoleAction::CheckRoleExists));
    let (s, a) = assign_cross_role_step(&input, s, AssignCrossRoleEvent::RoleExists(true));
    assert!(matches!(s, AssignCrossRoleState::CheckingAssignment));
    assert!(matches!(a, AssignCrossRoleAction::CheckAlreadyAssigned));
    let (s, a) = assign_cross_role_step(&input, s, AssignCrossRoleEvent::AlreadyAssigned(false));
    assert!(matches!(s, AssignCrossRoleState::CheckingPending));
    match a {
        AssignCrossRoleAction::CheckPendingExists { user_id, role_id, context_id } => {
            assert_eq!(user_id, id(1));
            assert_eq!(role_id, id(2));
            assert_eq!(context_id, id(3));
        }
        other => panic!("unexpected {:?}", other),
    }
    let (s, a) = assign_cross_role_step(&input, s, AssignCrossRoleEvent::PendingExists(false));
    assert!(matches!(s, AssignCrossRoleState::Creating));
    match a {
        AssignCrossRoleAction::CreatePendingApproval { payload } => assert_eq!(payload, assignment_payload(&input)),
        other => panic!("unexpected {:?}", other),
    }
    let (s, a) = assign_cross_role_step(&input, s, AssignCrossRoleEvent::ApprovalCreated(9));
    assert!(matches!(s, AssignCrossRoleState::Finished));
    let r = finish(a);
    assert!(r.success);
    assert_eq!(r.approval_status, Some(ApprovalStatus::AwaitingHumanApproval));
    assert_eq!(
        r.message,
        format!(
            "Đã tạo yêu cầu gán quyền (ID: {}). Trạng thái: CHỜ DUYỆT. Giám đốc/Admin cần phê duyệt trước khi quyền có hiệu lực.",
            id(9)
        )
    );
    let d = r.data.unwrap();
    assert_eq!(keys(&d), vec!["approval_id", "action_type", "payload", "status", "message_for_user"]);
    assert_eq!(as_str(d.field("status")), Some("AWAITING_HUMAN_APPROVAL".to_string()));
    assert_eq!(as_str(d.field("action_type")), Some("assign_cross_role".to_string()));
}

#[test]
fn assignment_payload_fields() {
    let p = assignment_payload(&input());
    assert_eq!(keys(&p), vec!["user_id", "role_id", "context_type", "context_id", "description"]);
    assert_eq!(as_str(p.field("context_type")), Some("BRANCH".to_string()));
    assert_eq!(
        as_str(p.field("description")),
        Some(format!("Gán role {} cho user {} tại Branch {}", id(2), id(1), id(3)))
    );
}

#[test]
fn missing_role_is_refused() {
    let (s, a) = assign_cross_role_step(&input(), AssignCrossRoleState::CheckingRole, AssignCrossRoleEvent::RoleExists(false));
    assert!(matches!(s, AssignCrossRoleState::Finished));
    let r = finish(a);
    assert!(!r.success);
    assert!(r.data.is_none());
    assert!(r.approval_status.is_none());
    assert_eq!(r.message, format!("Role {} không tồn tại hoặc đã bị vô hiệu hóa", id(2)));
}

#[test]
fn existing_assignment_is_refused() {
    let (_, a) = assign_cross_role_step(
        &input(),
        AssignCrossRoleState::CheckingAssignment,
        AssignCrossRoleEvent::AlreadyAssigned(true),
    );
    let r = finish(a);
    assert!(!r.success);
    assert_eq!(
        r.message,
        format!("User {} đã có role {} tại context {} (type: Branch). Không cần gán lại.", id(1), id(2), id(3))
    );
}

#[test]
fn duplicate_request_is_refused() {
    let (_, a) =
        assign_cross_role_step(&input(), AssignCrossRoleState::CheckingPending, AssignCrossRoleEvent::PendingExists(true));
    let r = finish(a);
    assert!(!r.success);
    assert_eq!(r.approval_status, Some(ApprovalStatus::AwaitingHumanApproval));
    assert_eq!(r.message, "Đã có yêu cầu gán quyền tương tự đang chờ duyệt. Vui lòng chờ Admin xử lý.");
}

#[test]
fn events_out_of_order_are_ignored() {
    let (s, a) = assign_cross_role_step(&input(), AssignCrossRoleState::Start, AssignCrossRoleEvent::ApprovalCreated(1));
    assert!(matches!(s, AssignCrossRoleState::Start));
    assert!(matches!(a, AssignCrossRoleAction::Ignore));
    let (s, a) = assign_cross_role_step(&input(), AssignCrossRoleState::Finished, AssignCrossRoleEvent::Begin);
    assert!(matches!(s, AssignCrossRoleState::Finished));
    assert!(matches!(a, AssignCrossRoleAction::Ignore));
}

#[test]
fn approving_an_assistant_request_grants_what_was_asked() {
    let input = input();
    let approval = PendingApproval {
        id: 9,
        tenant_id: 5,
        action_type: "assign_cross_role".into(),
        payload: assignment_payload(&input),
        status: ApprovalStatus::AwaitingHumanApproval,
        requested_by: 4,
        approved_by: None,
        reason: None,
        created_at: 0,
        resolved_at: None,
    };
    let plan = approve_plan(Some(approval)).unwrap().unwrap();
    assert_eq!(plan.user_id, id(1));
    assert_eq!(plan.role_id, id(2));
    assert_eq!(plan.context_type, "BRANCH");
    assert_eq!(plan.context_id, id(3));
}

#[test]
fn registered_skill_metadata_matches_each_skill() {
    let skills = register_iam_skills();
    let a = get_user_effective_permissions_metadata();
    let b = assign_cross_role_metadata();
    assert_eq!(skills[0].description, a.description);
    assert_eq!(skills[0].parameters, a.parameters);
    assert_eq!(skills[1].usage_examples, b.usage_examples);
    assert_eq!(skills[1].return_schema, b.return_schema);
}

fn text_list(v: &Json) -> Vec<String> {
    match v {
        Json::Array(items) => items.iter().map(|i| as_str(Some(i)).unwrap()).collect(),
        _ => panic!("not an array"),
    }
}

#[test]
fn assign_cross_role_schema_contents() {
    let m = assign_cross_role_metadata();
    let props = m.parameters.field("properties").unwrap();
    let ctx = props.field("context_type").unwrap();
    assert_eq!(keys(ctx), vec!["type", "enum", "description"]);
    assert_eq!(text_list(ctx.field("enum").unwrap()), vec!["DEPARTMENT", "PROJECT", "BRANCH"]);
    for key in ["user_id", "role_id", "context_id"] {
        let p = props.field(key).unwrap();
        assert_eq!(keys(p), vec!["type", "format", "description"]);
        assert_eq!(as_str(p.field("format")), Some("uuid".to_string()));
    }
    let status = m.return_schema.field("properties").unwrap().field("status").unwrap();
    assert_eq!(text_list(status.field("enum").unwrap()), vec!["AWAITING_HUMAN_APPROVAL"]);
    assert_eq!(
        as_str(status.field("description")),
        Some("Trạng thái: luôn là AWAITING_HUMAN_APPROVAL".to_string())
    );
}

#[test]
fn effective_permissions_schema_contents() {
    let m = get_user_effective_permissions_metadata();
    let user = m.parameters.field("properties").unwrap().field("user_id").unwrap();
    assert_eq!(as_str(user.field("type")), Some("string".to_string()));
    assert_eq!(as_str(user.field("format")), Some("uuid".to_string()));
    assert_eq!(as_str(user.field("description")), Some("UUID của nhân viên cần kiểm tra quyền".to_string()));
    let perms = m.return_schema.field("properties").unwrap().field("permissions").unwrap();
    assert_eq!(keys(perms), vec!["type", "items"]);
    assert_eq!(as_str(perms.field("type")), Some("array".to_string()));
    let item_props = perms.field("items").unwrap().field("properties").unwrap();
    assert_eq!(
        keys(item_props),
        vec!["permission_code", "permission_name", "granted_by_role", "context_type", "context_id"]
    );
    assert_eq!(keys(item_props.field("permission_code").unwrap()), vec!["type"]);
    assert_eq!(as_str(item_props.field("context_id").unwrap().field("format")), Some("uuid".to_string()));
}

#[test]
fn repeated_request_is_refused_without_recording() {
    let (s, a) =
        assign_cross_role_step(&input(), AssignCrossRoleState::CheckingPending, AssignCrossRoleEvent::PendingExists(true));
    assert!(matches!(s, AssignCrossRoleState::Finished));
    assert!(!matches!(a, AssignCrossRoleAction::CreatePendingApproval { .. }));
}

#[test]
fn a_run_records_one_request_at_most() {
    let input = input();
    let mut state = AssignCrossRoleState::Start;
    let mut recorded = 0;
    for event in [
        AssignCrossRoleEvent::Begin,
        AssignCrossRoleEvent::RoleExists(true),
        AssignCrossRoleEvent::AlreadyAssigned(false),
        AssignCrossRoleEvent::PendingExists(false),
        AssignCrossRoleEvent::PendingExists(false),
        AssignCrossRoleEvent::ApprovalCreated(7),
        AssignCrossRoleEvent::PendingExists(false),
    ] {
        let (next, action) = assign_cross_role_step(&input, state, event);
        if matches!(action, AssignCrossRoleAction::CreatePendingApproval { .. }) {
            recorded += 1;
        }
        state = next;
    }
    assert_eq!(recorded, 1);
    assert!(matches!(state, AssignCrossRoleState::Finished));
}
