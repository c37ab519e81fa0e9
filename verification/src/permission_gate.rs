//! The permission gate in front of protected routes: does the requester hold
//! the required permission in the context named by the `X-Context-Id` header?

use vstd::prelude::*;
use crate::auth::AuthContext;
use crate::errors::DbError;
use crate::iam_models::{PermissionCheckInput, PermissionRequirement, spec_context_type_name, context_type_name};
use crate::ids::{spec_uuid_parse, uuid_text};
use crate::json::{Json, spec_field, spec_as_str, error_body, lemma_find_member_at, is_error_body, has_keys, member_at, is_text_member};

verus! {

/// What happens to a request once its headers have been looked at.
#[derive(Debug)]
pub enum GateStep {
    /// Check that the requester holds the permission.
    Check(PermissionCheckInput),
    /// Refuse the request with this status and JSON body.
    Deny { status: u16, body: Json },
}

/// The mathematical form of an optional header value.
pub open spec fn header_view(h: Option<&str>) -> Option<Seq<char>> {
    match h {
        Some(s) => Some(s@),
        None => None,
    }
}

/// The context id named by the header, if it holds a UUID.
pub open spec fn context_id_of(h: Option<Seq<char>>) -> Option<u128> {
    match h {
        Some(s) => spec_uuid_parse(s),
        None => None,
    }
}

/// First step of the permission check: a request without an authenticated requester is
/// refused with 401, one without a valid context id with 400; otherwise the
/// requester's permission in that context must be checked.
pub fn permission_gate_start(
    requirement: &PermissionRequirement,
    auth: Option<AuthContext>,
    context_header: Option<&str>,
) -> (r: GateStep)
    ensures
        match auth {
            None => (r matches GateStep::Deny { status, body } && status == 401 && is_error_body(
                body,
                "unauthorized"@,
                "Authentication required"@,
            )),
            Some(a) => match context_id_of(header_view(context_header)) {
                None => (r matches GateStep::Deny { status, body } && status == 400 && is_error_body(
                    body,
                    "bad_request"@,
                    "X-Context-Id header is required and must be a valid UUID"@,
                )),
                Some(cid) => (r matches GateStep::Check(c) && c.user_id == a.user_id && c.tenant_id
                    == a.tenant_id && c.permission_code@ == requirement.permission_code@
                    && c.context_type == requirement.context_type && c.context_id == cid),
            },
        },
{
    let a = match auth {
        Some(a) => a,
        None => {
            return GateStep::Deny {
                status: 401,
                body: error_body("unauthorized", "Authentication required"),
            };
        },
    };
    let context_id = match context_header {
        Some(h) => crate::ids::parse_uuid(h),
        None => None,
    };
    match context_id {
        Some(cid) => GateStep::Check(
            PermissionCheckInput {
                user_id: a.user_id,
                tenant_id: a.tenant_id,
                permission_code: requirement.permission_code.clone(),
                context_type: requirement.context_type,
                context_id: cid,
            },
        ),
        None => GateStep::Deny {
            status: 400,
            body: error_body("bad_request", "X-Context-Id header is required and must be a valid UUID"),
        },
    }
}

/// The 403 body of a refused request: why, which permission and which
/// context, exactly these five members in this order.
pub open spec fn spec_forbidden_body(requirement: PermissionRequirement, context_id: u128, body: Json) -> bool {
    &&& has_keys(
        body,
        seq!["error"@, "message"@, "required_permission"@, "context_type"@, "context_id"@],
    )
    &&& is_text_member(member_at(body, 0), "error"@, "forbidden"@)
    &&& is_text_member(
        member_at(body, 1),
        "message"@,
        "You do not have the required permission in this context"@,
    )
    &&& is_text_member(member_at(body, 2), "required_permission"@, requirement.permission_code@)
    &&& is_text_member(
        member_at(body, 3),
        "context_type"@,
        spec_context_type_name(requirement.context_type),
    )
    &&& is_text_member(member_at(body, 4), "context_id"@, uuid_text(context_id))
    &&& spec_as_str(spec_field(body, "error"@)) == Some("forbidden"@)
    &&& spec_as_str(spec_field(body, "message"@)) == Some(
        "You do not have the required permission in this context"@,
    )
    &&& spec_as_str(spec_field(body, "required_permission"@)) == Some(requirement.permission_code@)
    &&& spec_as_str(spec_field(body, "context_type"@)) == Some(
        spec_context_type_name(requirement.context_type),
    )
    &&& spec_as_str(spec_field(body, "context_id"@)) == Some(uuid_text(context_id))
}

/// Builds the 403 body of a refused request.
pub fn forbidden_body(requirement: &PermissionRequirement, context_id: u128) -> (r: Json)
    ensures
        spec_forbidden_body(*requirement, context_id, r),
{
    let mut m: Vec<(String, Json)> = Vec::new();
    m.push((String::from_str("error"), Json::text("forbidden")));
    m.push(
        (
            String::from_str("message"),
            Json::text("You do not have the required permission in this context"),
        ),
    );
    m.push((String::from_str("required_permission"), Json::Str(requirement.permission_code.clone())));
    m.push((String::from_str("context_type"), Json::Str(context_type_name(requirement.context_type))));
    m.push((String::from_str("context_id"), Json::Str(crate::ids::uuid_to_string(context_id))));
    proof {
        reveal_strlit("error");
        reveal_strlit("message");
        reveal_strlit("required_permission");
        reveal_strlit("context_type");
        reveal_strlit("context_id");
        assert("error"@ != "message"@) by { assert("error"@.len() != "message"@.len()); }
        assert("error"@ != "required_permission"@) by { assert("error"@.len() != "required_permission"@.len()); }
        assert("message"@ != "required_permission"@) by { assert("message"@.len() != "required_permission"@.len()); }
        assert("error"@ != "context_type"@) by { assert("error"@.len() != "context_type"@.len()); }
        assert("message"@ != "context_type"@) by { assert("message"@.len() != "context_type"@.len()); }
        assert("required_permission"@ != "context_type"@) by { assert("required_permission"@.len() != "context_type"@.len()); }
        assert("error"@ != "context_id"@) by { assert("error"@.len() != "context_id"@.len()); }
        assert("message"@ != "context_id"@) by { assert("message"@.len() != "context_id"@.len()); }
        assert("required_permission"@ != "context_id"@) by { assert("required_permission"@.len() != "context_id"@.len()); }
        assert("context_type"@ != "context_id"@) by { assert("context_type"@.len() != "context_id"@.len()); }
        lemma_find_member_at(m@, "error"@, 0);
        lemma_find_member_at(m@, "message"@, 1);
        lemma_find_member_at(m@, "required_permission"@, 2);
        lemma_find_member_at(m@, "context_type"@, 3);
        lemma_find_member_at(m@, "context_id"@, 4);
    }
    Json::Object(m)
}

/// Last step of the permission check: the request goes through (`None`) exactly when the
/// check says the requester holds the permission; a failed check is a 500,
/// a missing permission a 403.
pub fn permission_gate_finish(
    requirement: &PermissionRequirement,
    context_id: u128,
    check: Result<bool, DbError>,
) -> (r: Option<(u16, Json)>)
    ensures
        r is None <==> check == Ok::<bool, DbError>(true),
        check is Err ==> (r matches Some((status, body)) && status == 500 && is_error_body(
            body,
            "internal_error"@,
            "Failed to verify permissions"@,
        )),
        check == Ok::<bool, DbError>(false) ==> (r matches Some((status, body)) && status == 403
            && spec_forbidden_body(*requirement, context_id, body)),
{
    match check {
        Err(_) => Some((500, error_body("internal_error", "Failed to verify permissions"))),
        Ok(false) => Some((403, forbidden_body(requirement, context_id))),
        Ok(true) => None,
    }
}

} // verus!
