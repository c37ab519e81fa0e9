//! The rules of the IAM API: input checks, where a new department goes,
//! how missing rows are answered, the tenant setting for row-level
//! security, and the approval workflow of role assignments.

use vstd::prelude::*;
use crate::errors::{AppError, AppErrorView};
use crate::iam_models::{AssignCrossRoleInput, CreateDepartmentRequest, CreatePermissionRequest, CreateRoleRequest, Department, PendingApproval, context_type_label, spec_context_type_label};
use crate::json::{Json, spec_field, spec_as_str, deref_opt, has_keys, member_at, is_text_member, text_member};
use crate::ids::{uuid_text, uuid_to_string};

verus! {

/// The mathematical form of a check result.
pub open spec fn check_view(r: Result<(), AppError>) -> Result<(), AppErrorView> {
    match r {
        Ok(()) => Ok(()),
        Err(e) => Err(e@),
    }
}

/// Rule for new departments and roles: both name and code are required.
pub fn require_name_and_code(name: &str, code: &str) -> (r: Result<(), AppError>)
    ensures
        check_view(r) == if name@.len() == 0 || code@.len() == 0 {
            Err(AppErrorView::BadRequest("name and code are required"@))
        } else {
            Ok(())
        },
{
    if name.is_empty() || code.is_empty() {
        Err(AppError::BadRequest(String::from_str("name and code are required")))
    } else {
        Ok(())
    }
}

/// Rule for new permissions: both code and name are required.
pub fn require_code_and_name(code: &str, name: &str) -> (r: Result<(), AppError>)
    ensures
        check_view(r) == if code@.len() == 0 || name@.len() == 0 {
            Err(AppErrorView::BadRequest("code and name are required"@))
        } else {
            Ok(())
        },
{
    if code.is_empty() || name.is_empty() {
        Err(AppError::BadRequest(String::from_str("code and name are required")))
    } else {
        Ok(())
    }
}

/// Checks a new department's request.
pub fn validate_create_department(req: &CreateDepartmentRequest) -> (r: Result<(), AppError>)
    ensures
        check_view(r) == if req.name@.len() == 0 || req.code@.len() == 0 {
            Err(AppErrorView::BadRequest("name and code are required"@))
        } else {
            Ok(())
        },
{
    require_name_and_code(req.name.as_str(), req.code.as_str())
}

/// Checks a new role's request.
pub fn validate_create_role(req: &CreateRoleRequest) -> (r: Result<(), AppError>)
    ensures
        check_view(r) == if req.name@.len() == 0 || req.code@.len() == 0 {
            Err(AppErrorView::BadRequest("name and code are required"@))
        } else {
            Ok(())
        },
{
    require_name_and_code(req.name.as_str(), req.code.as_str())
}

/// Checks a new permission's request.
pub fn validate_create_permission(req: &CreatePermissionRequest) -> (r: Result<(), AppError>)
    ensures
        check_view(r) == if req.code@.len() == 0 || req.name@.len() == 0 {
            Err(AppErrorView::BadRequest("code and name are required"@))
        } else {
            Ok(())
        },
{
    require_code_and_name(req.code.as_str(), req.name.as_str())
}

/// Where a new department goes in the chart: its ltree path and level.
/// `parent` is `None` for a root department, `Some(None)` when the parent
/// asked for does not exist in the tenant, and `Some(Some(p))` otherwise.
pub open spec fn spec_department_placement(parent: Option<Option<Department>>, code: Seq<char>) -> Result<(Seq<char>, int), AppErrorView> {
    match parent {
        None => Ok((code, 0)),
        Some(None) => Err(AppErrorView::NotFound("Parent department not found"@)),
        Some(Some(p)) => Ok((p.path@ + "."@ + code, p.level + 1)),
    }
}

/// The mathematical form of a placement result.
pub open spec fn placement_view(r: Result<(String, i32), AppError>) -> Result<(Seq<char>, int), AppErrorView> {
    match r {
        Ok((path, level)) => Ok((path@, level as int)),
        Err(e) => Err(e@),
    }
}

/// The mathematical form of a parent lookup.
pub open spec fn parent_view(parent: Option<Option<&Department>>) -> Option<Option<Department>> {
    match parent {
        None => None,
        Some(None) => Some(None),
        Some(Some(p)) => Some(Some(*p)),
    }
}

/// Computes where a new department goes in the chart.
pub fn department_placement(parent: Option<Option<&Department>>, code: &str) -> (r: Result<(String, i32), AppError>)
    requires
        parent matches Some(Some(p)) ==> p.level < i32::MAX,
    ensures
        placement_view(r) == spec_department_placement(parent_view(parent), code@),
{
    match parent {
        None => Ok((String::from_str(code), 0)),
        Some(None) => Err(AppError::NotFound(String::from_str("Parent department not found"))),
        Some(Some(p)) => {
            let mut path = String::from_str(p.path.as_str());
            path.append(".");
            path.append(code);
            Ok((path, p.level + 1))
        },
    }
}

/// A row that must exist: a 404 with the given message when it does not.
pub fn require_found<T>(found: Option<T>, message: &str) -> (r: Result<T, AppError>)
    ensures
        match found {
            Some(x) => r matches Ok(y) && y == x,
            None => (r matches Err(e) && e@ == AppErrorView::NotFound(message@)),
        },
{
    match found {
        Some(x) => Ok(x),
        None => Err(AppError::NotFound(String::from_str(message))),
    }
}

/// An update that must touch a row: a 404 with the given message when none was.
pub fn require_affected(rows_affected: u64, message: &str) -> (r: Result<(), AppError>)
    ensures
        check_view(r) == if rows_affected == 0 {
            Err(AppErrorView::NotFound(message@))
        } else {
            Ok(())
        },
{
    if rows_affected == 0 {
        Err(AppError::NotFound(String::from_str(message)))
    } else {
        Ok(())
    }
}

/// The body `{"message": text}` of a confirmation: exactly that one member.
pub fn message_body(text: &str) -> (r: Json)
    ensures
        has_keys(r, seq!["message"@]),
        is_text_member(member_at(r, 0), "message"@, text@),
        spec_as_str(spec_field(r, "message"@)) == Some(text@),
{
    let mut m: Vec<(String, Json)> = Vec::new();
    m.push(text_member("message", text));
    assert(crate::json::find_member(m@, "message"@, 0) == Some(m@[0].1));
    Json::Object(m)
}

/// The statement that scopes a connection to a tenant for row-level security.
pub fn tenant_context_sql(tenant_id: u128) -> (r: String)
    ensures
        r@ == "SET LOCAL app.current_tenant_id = '"@ + uuid_text(tenant_id) + "'"@,
{
    let mut r = String::from_str("SET LOCAL app.current_tenant_id = '");
    let id = uuid_to_string(tenant_id);
    r.append(id.as_str());
    r.append("'");
    r
}

/// The action type of a role assignment waiting for approval.
pub open spec fn assign_cross_role_action() -> Seq<char> {
    "assign_cross_role"@
}

/// The payload recorded for a role assignment requested through the API:
/// the user, role and context ids as UUID text and the context type by its
/// database label, exactly these four members in this order.
pub open spec fn spec_assignment_request_payload(input: AssignCrossRoleInput, payload: Json) -> bool {
    &&& has_keys(payload, seq!["user_id"@, "role_id"@, "context_type"@, "context_id"@])
    &&& is_text_member(member_at(payload, 0), "user_id"@, uuid_text(input.user_id))
    &&& is_text_member(member_at(payload, 1), "role_id"@, uuid_text(input.role_id))
    &&& is_text_member(
        member_at(payload, 2),
        "context_type"@,
        spec_context_type_label(input.context_type),
    )
    &&& is_text_member(member_at(payload, 3), "context_id"@, uuid_text(input.context_id))
    &&& spec_as_str(spec_field(payload, "user_id"@)) == Some(uuid_text(input.user_id))
    &&& spec_as_str(spec_field(payload, "role_id"@)) == Some(uuid_text(input.role_id))
    &&& spec_as_str(spec_field(payload, "context_type"@)) == Some(
        spec_context_type_label(input.context_type),
    )
    &&& spec_as_str(spec_field(payload, "context_id"@)) == Some(uuid_text(input.context_id))
}

/// Builds the payload of a role assignment requested through the API.
pub fn assignment_request_payload(input: &AssignCrossRoleInput) -> (r: Json)
    ensures
        spec_assignment_request_payload(*input, r),
{
    let mut m: Vec<(String, Json)> = Vec::new();
    m.push((String::from_str("user_id"), Json::Str(uuid_to_string(input.user_id))));
    m.push((String::from_str("role_id"), Json::Str(uuid_to_string(input.role_id))));
    m.push((String::from_str("context_type"), Json::Str(context_type_label(input.context_type))));
    m.push((String::from_str("context_id"), Json::Str(uuid_to_string(input.context_id))));
    proof {
        reveal_strlit("user_id");
        reveal_strlit("role_id");
        reveal_strlit("context_type");
        reveal_strlit("context_id");
        assert("user_id"@ != "role_id"@) by { assert("user_id"@[0] != "role_id"@[0]); }
        assert("user_id"@ != "context_type"@) by { assert("user_id"@.len() != "context_type"@.len()); }
        assert("user_id"@ != "context_id"@) by { assert("user_id"@.len() != "context_id"@.len()); }
        assert("role_id"@ != "context_type"@) by { assert("role_id"@.len() != "context_type"@.len()); }
        assert("role_id"@ != "context_id"@) by { assert("role_id"@.len() != "context_id"@.len()); }
        assert("context_type"@ != "context_id"@) by { assert("context_type"@.len() != "context_id"@.len()); }
        assert(crate::json::find_member(m@, "user_id"@, 0) == Some(m@[0].1));
        assert(crate::json::find_member(m@, "role_id"@, 1) == Some(m@[1].1));
        assert(crate::json::find_member(m@, "role_id"@, 0) == Some(m@[1].1));
        assert(crate::json::find_member(m@, "context_type"@, 2) == Some(m@[2].1));
        assert(crate::json::find_member(m@, "context_type"@, 1) == Some(m@[2].1));
        assert(crate::json::find_member(m@, "context_type"@, 0) == Some(m@[2].1));
        assert(crate::json::find_member(m@, "context_id"@, 3) == Some(m@[3].1));
        assert(crate::json::find_member(m@, "context_id"@, 2) == Some(m@[3].1));
        assert(crate::json::find_member(m@, "context_id"@, 1) == Some(m@[3].1));
        assert(crate::json::find_member(m@, "context_id"@, 0) == Some(m@[3].1));
    }
    Json::Object(m)
}

/// The role assignment an approval carries out, read from its payload as
/// text; a missing or non-string field reads as empty text.
#[derive(Debug)]
pub struct AssignmentFields {
    pub user_id: String,
    pub role_id: String,
    pub context_type: String,
    pub context_id: String,
}

/// A payload field as text, empty when missing or not a string.
pub open spec fn text_or_empty(payload: Json, key: Seq<char>) -> Seq<char> {
    match spec_as_str(spec_field(payload, key)) {
        Some(t) => t,
        None => Seq::empty(),
    }
}

/// Reads a payload field as text, empty when missing or not a string.
pub fn field_text_or_empty(payload: &Json, key: &str) -> (r: String)
    ensures
        r@ == text_or_empty(*payload, key@),
{
    match crate::json::as_str(payload.field(key)) {
        Some(s) => s,
        None => String::new(),
    }
}

/// Reads the role assignment out of an approval's payload.
pub fn assignment_from_payload(payload: &Json) -> (r: AssignmentFields)
    ensures
        r.user_id@ == text_or_empty(*payload, "user_id"@),
        r.role_id@ == text_or_empty(*payload, "role_id"@),
        r.context_type@ == text_or_empty(*payload, "context_type"@),
        r.context_id@ == text_or_empty(*payload, "context_id"@),
{
    AssignmentFields {
        user_id: field_text_or_empty(payload, "user_id"),
        role_id: field_text_or_empty(payload, "role_id"),
        context_type: field_text_or_empty(payload, "context_type"),
        context_id: field_text_or_empty(payload, "context_id"),
    }
}

/// What approving a request does, given the request still waiting (if any):
/// a 404 when there is none; otherwise it is marked approved and, when it is
/// a role assignment, the assignment its payload describes is made.
pub open spec fn spec_approve_plan(found: Option<PendingApproval>) -> Result<Option<(Seq<char>, Seq<char>, Seq<char>, Seq<char>)>, AppErrorView> {
    match found {
        None => Err(AppErrorView::NotFound("Pending approval not found"@)),
        Some(a) => if a.action_type@ == assign_cross_role_action() {
            Ok(
                Some(
                    (
                        text_or_empty(a.payload, "user_id"@),
                        text_or_empty(a.payload, "role_id"@),
                        text_or_empty(a.payload, "context_type"@),
                        text_or_empty(a.payload, "context_id"@),
                    ),
                ),
            )
        } else {
            Ok(None)
        },
    }
}

/// The mathematical form of an approval plan.
pub open spec fn approve_plan_view(r: Result<Option<AssignmentFields>, AppError>) -> Result<Option<(Seq<char>, Seq<char>, Seq<char>, Seq<char>)>, AppErrorView> {
    match r {
        Err(e) => Err(e@),
        Ok(None) => Ok(None),
        Ok(Some(f)) => Ok(Some((f.user_id@, f.role_id@, f.context_type@, f.context_id@))),
    }
}

/// Decides what approving a request does (see [`spec_approve_plan`]).
pub fn approve_plan(found: Option<PendingApproval>) -> (r: Result<Option<AssignmentFields>, AppError>)
    ensures
        approve_plan_view(r) == spec_approve_plan(found),
{
    match found {
        None => Err(AppError::NotFound(String::from_str("Pending approval not found"))),
        Some(a) => if crate::text::str_eq(a.action_type.as_str(), "assign_cross_role") {
            Ok(Some(assignment_from_payload(&a.payload)))
        } else {
            Ok(None)
        },
    }
}

/// Approving a role assignment requested through the API makes exactly the
/// assignment that was requested: its user, role and context ids as UUID
/// text and its context type by name.
pub proof fn law_approval_carries_out_request(input: AssignCrossRoleInput, a: PendingApproval)
    requires
        a.action_type@ == assign_cross_role_action(),
        spec_assignment_request_payload(input, a.payload),
    ensures
        spec_approve_plan(Some(a)) == Ok::<_, AppErrorView>(
            Some(
                (
                    uuid_text(input.user_id),
                    uuid_text(input.role_id),
                    spec_context_type_label(input.context_type),
                    uuid_text(input.context_id),
                ),
            ),
        ),
{
}

/// Whether rejecting a request went through: a 404 when no waiting request was touched.
pub fn reject_outcome(rows_affected: u64) -> (r: Result<(), AppError>)
    ensures
        check_view(r) == if rows_affected == 0 {
            Err(AppErrorView::NotFound("Pending approval not found"@))
        } else {
            Ok(())
        },
{
    require_affected(rows_affected, "Pending approval not found")
}

/// A department placed under an existing parent goes one level deeper than
/// the parent, and its path is the parent's path extended by a dot and its
/// code; a department without a parent is a root: level 0, path its code.
/// A missing parent is refused.
pub proof fn law_placement_under_parent(parent: Option<Option<Department>>, code: Seq<char>)
    ensures
        parent matches Some(Some(p)) ==> (spec_department_placement(parent, code) matches Ok(
            (path, level),
        ) && level == p.level + 1 && path.len() == p.path@.len() + 1 + code.len() && path.subrange(
            0,
            p.path@.len() as int,
        ) == p.path@ && path[p.path@.len() as int] == '.' && path.subrange(
            p.path@.len() + 1int,
            path.len() as int,
        ) == code),
        parent is None ==> spec_department_placement(parent, code) == Ok::<
            (Seq<char>, int),
            AppErrorView,
        >((code, 0)),
        parent == Some(None::<Department>) ==> spec_department_placement(parent, code) is Err,
{
    if let Some(Some(p)) = parent {
        reveal_strlit(".");
        let path = p.path@ + "."@ + code;
        assert(path.subrange(0, p.path@.len() as int) =~= p.path@);
        assert(path.subrange(p.path@.len() + 1int, path.len() as int) =~= code);
    }
}

} // verus!
