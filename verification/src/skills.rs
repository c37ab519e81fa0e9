//! IAM skills that the AI assistant may call (function calling, MCP style).
//!
//! Sensitive operations never take effect directly: assigning a role only
//! creates a request that waits for a human approval.

use vstd::prelude::*;
use crate::iam_models::{ApprovalStatus, AssignCrossRoleInput, ContextType, EffectivePermission, spec_context_type_name, context_type_name, spec_context_type_label, context_type_label};
use crate::ids::{uuid_text, uuid_to_string};
use crate::json::{Json, is_text_member, member, text_member, string_member, spec_as_str, has_keys, member_at, is_text_array, lemma_member_lookup};
use crate::iam_models::PendingApproval;
use crate::iam_rules::{assign_cross_role_action, spec_approve_plan};
use crate::errors::AppErrorView;
use crate::text::{spec_decimal, decimal_text};

verus! {

/// Description of a skill for the model: what it does, when to use it, and
/// the JSON schemas of its parameters and result.
#[derive(Debug)]
pub struct SkillMetadata {
    /// Unique function name.
    pub name: String,
    /// What the skill is for, in Vietnamese.
    pub description: String,
    /// Requests the skill answers.
    pub usage_examples: Vec<String>,
    /// JSON schema of the parameters.
    pub parameters: Json,
    /// JSON schema of the result.
    pub return_schema: Json,
}

/// What a skill returns.
#[derive(Debug)]
pub struct SkillResult {
    pub success: bool,
    pub data: Option<Json>,
    pub message: String,
    /// Set when the request waits for a human approval.
    pub approval_status: Option<ApprovalStatus>,
}

/// An object schema: `type` is `object`, then the `required` names (when
/// given), then the `properties`, whose keys are the given names.
pub open spec fn is_object_schema(v: Json, required: Option<Seq<Seq<char>>>, properties: Seq<Seq<char>>) -> bool {
    match required {
        Some(req) => {
            &&& has_keys(v, seq!["type"@, "required"@, "properties"@])
            &&& is_text_member(member_at(v, 0), "type"@, "object"@)
            &&& is_text_array(member_at(v, 1).1, req)
            &&& has_keys(member_at(v, 2).1, properties)
        },
        None => {
            &&& has_keys(v, seq!["type"@, "properties"@])
            &&& is_text_member(member_at(v, 0), "type"@, "object"@)
            &&& has_keys(member_at(v, 1).1, properties)
        },
    }
}

/// An array of the given texts.
fn text_array(texts: &[&str]) -> (r: Json)
    ensures
        r matches Json::Array(items) && items@.len() == texts@.len() && forall|i: int|
            0 <= i < texts@.len() ==> spec_as_str(Some(#[trigger] items@[i])) == Some(texts@[i]@),
{
    let mut items: Vec<Json> = Vec::new();
    let mut i: usize = 0;
    while i < texts.len()
        invariant
            i <= texts@.len(),
            items@.len() == i,
            forall|k: int| 0 <= k < i ==> spec_as_str(Some(#[trigger] items@[k])) == Some(texts@[k]@),
        decreases texts@.len() - i,
    {
        items.push(Json::text(texts[i]));
        i = i + 1;
    }
    Json::Array(items)
}

/// Owned copies of the given texts.
fn strings(texts: &[&str]) -> (r: Vec<String>)
    ensures
        r@.len() == texts@.len(),
        forall|i: int| 0 <= i < texts@.len() ==> (#[trigger] r@[i])@ == texts@[i]@,
{
    let mut r: Vec<String> = Vec::new();
    let mut i: usize = 0;
    while i < texts.len()
        invariant
            i <= texts@.len(),
            r@.len() == i,
            forall|k: int| 0 <= k < i ==> (#[trigger] r@[k])@ == texts@[k]@,
        decreases texts@.len() - i,
    {
        r.push(String::from_str(texts[i]));
        i = i + 1;
    }
    r
}

/// A property schema: `type`, then `format` when given, then `description`
/// when given, all of them texts, and no other member.
pub open spec fn is_property(v: Json, kind: Seq<char>, format: Option<Seq<char>>, description: Option<Seq<char>>) -> bool {
    match (format, description) {
        (Some(f), Some(d)) => {
            &&& has_keys(v, seq!["type"@, "format"@, "description"@])
            &&& is_text_member(member_at(v, 0), "type"@, kind)
            &&& is_text_member(member_at(v, 1), "format"@, f)
            &&& is_text_member(member_at(v, 2), "description"@, d)
        },
        (Some(f), None) => {
            &&& has_keys(v, seq!["type"@, "format"@])
            &&& is_text_member(member_at(v, 0), "type"@, kind)
            &&& is_text_member(member_at(v, 1), "format"@, f)
        },
        (None, Some(d)) => {
            &&& has_keys(v, seq!["type"@, "description"@])
            &&& is_text_member(member_at(v, 0), "type"@, kind)
            &&& is_text_member(member_at(v, 1), "description"@, d)
        },
        (None, None) => {
            &&& has_keys(v, seq!["type"@])
            &&& is_text_member(member_at(v, 0), "type"@, kind)
        },
    }
}

/// An enumeration schema: `type`, the `enum` list of allowed texts, and a
/// `description`, and no other member.
pub open spec fn is_enum_property(v: Json, kind: Seq<char>, values: Seq<Seq<char>>, description: Seq<char>) -> bool {
    &&& has_keys(v, seq!["type"@, "enum"@, "description"@])
    &&& is_text_member(member_at(v, 0), "type"@, kind)
    &&& is_text_array(member_at(v, 1).1, values)
    &&& is_text_member(member_at(v, 2), "description"@, description)
}

/// The schema of the `i`-th property of an object schema (whose
/// `properties` member comes after `required` when that is present).
pub open spec fn schema_property(v: Json, required: bool, i: int) -> Json {
    member_at(
        member_at(
            v,
            if required {
                2
            } else {
                1
            },
        ).1,
        i,
    ).1
}

/// A property schema with the given type and optional format and description.
fn property(kind: &str, format: Option<&str>, description: Option<&str>) -> (r: Json)
    ensures
        is_property(r, kind@, crate::auth::opt_str_view(format), crate::auth::opt_str_view(description)),
{
    let mut m: Vec<(String, Json)> = Vec::new();
    m.push(text_member("type", kind));
    match format {
        Some(f) => m.push(text_member("format", f)),
        None => {},
    }
    match description {
        Some(d) => m.push(text_member("description", d)),
        None => {},
    }
    Json::Object(m)
}

/// An enumeration schema with the given type, allowed texts and description.
fn enum_property(kind: &str, values: &[&str], description: &str) -> (r: Json)
    ensures
        is_enum_property(r, kind@, values@.map_values(|s: &str| s@), description@),
{
    let arr = text_array(values);
    assert(is_text_array(arr, values@.map_values(|s: &str| s@)));
    let mut m: Vec<(String, Json)> = Vec::new();
    m.push(text_member("type", kind));
    m.push(member("enum", arr));
    m.push(text_member("description", description));
    Json::Object(m)
}

/// An object schema with the given required names and properties.
fn object_schema(required: Option<&[&str]>, properties: Vec<(String, Json)>) -> (r: Json)
    ensures
        is_object_schema(
            r,
            match required {
                Some(req) => Some(req@.map_values(|s: &str| s@)),
                None => None,
            },
            properties@.map_values(|p: (String, Json)| p.0@),
        ),
        member_at(
            r,
            if required is Some {
                2
            } else {
                1
            },
        ).1 == Json::Object(properties),
{
    let ghost keys = properties@.map_values(|p: (String, Json)| p.0@);
    let props = Json::Object(properties);
    assert(has_keys(props, keys));
    let mut m: Vec<(String, Json)> = Vec::new();
    m.push(text_member("type", "object"));
    match required {
        Some(req) => {
            let arr = text_array(req);
            assert(is_text_array(arr, req@.map_values(|s: &str| s@)));
            m.push(member("required", arr));
            m.push(member("properties", props));
            proof {
                reveal_strlit("type");
                reveal_strlit("required");
                reveal_strlit("properties");
                assert(has_keys(Json::Object(m), seq!["type"@, "required"@, "properties"@]));
            }
        },
        None => {
            m.push(member("properties", props));
            proof {
                reveal_strlit("type");
                reveal_strlit("properties");
                assert(has_keys(Json::Object(m), seq!["type"@, "properties"@]));
            }
        },
    }
    Json::Object(m)
}

/// Name of the skill listing a user's effective permissions.
pub const EFFECTIVE_PERMISSIONS_SKILL: &'static str = "get_user_effective_permissions";

/// Name of the skill requesting a role assignment.
pub const ASSIGN_CROSS_ROLE_SKILL: &'static str = "assign_cross_role";

/// What the effective-permissions skill is for.
pub const EFFECTIVE_PERMISSIONS_DESCRIPTION: &'static str = "Lấy danh sách tất cả quyền hạn có hiệu lực của một nhân viên tại một ngữ cảnh cụ thể (phòng ban, dự án, chi nhánh). Sử dụng để trả lời câu hỏi: 'Nhân viên A có được phép làm gì ở chi nhánh B?'";

/// What the role-assignment skill is for.
pub const ASSIGN_CROSS_ROLE_DESCRIPTION: &'static str = "Gán vai trò (role) cho nhân viên tại một ngữ cảnh cụ thể (phòng ban/dự án/chi nhánh). ĐÂY LÀ THAO TÁC NHẠY CẢM: hệ thống sẽ tạo yêu cầu chờ duyệt (AWAITING_HUMAN_APPROVAL) và Giám đốc/Admin phải duyệt trên giao diện trước khi quyền được cấp. AI KHÔNG được tự ý cấp quyền.";

/// The schema of one listed permission: an object whose five properties are
/// strings, the context id in UUID format.
pub open spec fn is_permission_item_schema(v: Json) -> bool {
    &&& is_object_schema(
        v,
        None,
        seq![
            "permission_code"@,
            "permission_name"@,
            "granted_by_role"@,
            "context_type"@,
            "context_id"@,
        ],
    )
    &&& is_property(schema_property(v, false, 0), "string"@, None, None)
    &&& is_property(schema_property(v, false, 1), "string"@, None, None)
    &&& is_property(schema_property(v, false, 2), "string"@, None, None)
    &&& is_property(schema_property(v, false, 3), "string"@, None, None)
    &&& is_property(schema_property(v, false, 4), "string"@, Some("uuid"@), None)
}

/// The metadata of the skill listing a user's effective permissions: its
/// name, description and examples; its parameters, the two required UUIDs
/// `user_id` and `context_id`; and its result, the array `permissions` of
/// permission objects.
pub open spec fn is_effective_permissions_metadata(m: SkillMetadata) -> bool {
    &&& m.name@ == EFFECTIVE_PERMISSIONS_SKILL@
    &&& m.description@ == EFFECTIVE_PERMISSIONS_DESCRIPTION@
    &&& m.usage_examples@.len() == 3
    &&& m.usage_examples@[0]@ == "Nhân viên Nguyễn Văn A có quyền duyệt đơn ở chi nhánh Hà Nội không?"@
    &&& m.usage_examples@[1]@ == "Liệt kê tất cả quyền của user ID abc-123 tại phòng Kỹ thuật"@
    &&& m.usage_examples@[2]@ == "Kiểm tra ai có quyền approve_order tại dự án Alpha"@
    &&& is_object_schema(m.parameters, Some(seq!["user_id"@, "context_id"@]), seq!["user_id"@, "context_id"@])
    &&& is_property(
        schema_property(m.parameters, true, 0),
        "string"@,
        Some("uuid"@),
        Some("UUID của nhân viên cần kiểm tra quyền"@),
    )
    &&& is_property(
        schema_property(m.parameters, true, 1),
        "string"@,
        Some("uuid"@),
        Some("UUID của ngữ cảnh (phòng ban/dự án/chi nhánh)"@),
    )
    &&& is_object_schema(m.return_schema, None, seq!["permissions"@])
    &&& has_keys(schema_property(m.return_schema, false, 0), seq!["type"@, "items"@])
    &&& is_text_member(member_at(schema_property(m.return_schema, false, 0), 0), "type"@, "array"@)
    &&& is_permission_item_schema(member_at(schema_property(m.return_schema, false, 0), 1).1)
}

/// Metadata of the skill listing a user's effective permissions in a context.
pub fn get_user_effective_permissions_metadata() -> (m: SkillMetadata)
    ensures
        is_effective_permissions_metadata(m),
{
    let examples = strings(
        &[
            "Nhân viên Nguyễn Văn A có quyền duyệt đơn ở chi nhánh Hà Nội không?",
            "Liệt kê tất cả quyền của user ID abc-123 tại phòng Kỹ thuật",
            "Kiểm tra ai có quyền approve_order tại dự án Alpha",
        ],
    );
    let mut params: Vec<(String, Json)> = Vec::new();
    params.push(
        member("user_id", property("string", Some("uuid"), Some("UUID của nhân viên cần kiểm tra quyền"))),
    );
    params.push(
        member(
            "context_id",
            property("string", Some("uuid"), Some("UUID của ngữ cảnh (phòng ban/dự án/chi nhánh)")),
        ),
    );
    let ghost param_values = params@;
    let required: &[&str] = &["user_id", "context_id"];
    let parameters = object_schema(Some(required), params);
    let mut item_props: Vec<(String, Json)> = Vec::new();
    item_props.push(member("permission_code", property("string", None, None)));
    item_props.push(member("permission_name", property("string", None, None)));
    item_props.push(member("granted_by_role", property("string", None, None)));
    item_props.push(member("context_type", property("string", None, None)));
    item_props.push(member("context_id", property("string", Some("uuid"), None)));
    let ghost item_keys = item_props@.map_values(|p: (String, Json)| p.0@);
    let ghost item_values = item_props@;
    let item = object_schema(None, item_props);
    proof {
        assert(item_keys =~= seq![
            "permission_code"@,
            "permission_name"@,
            "granted_by_role"@,
            "context_type"@,
            "context_id"@,
        ]);
        assert(schema_property(item, false, 0) == item_values[0].1);
        assert(schema_property(item, false, 4) == item_values[4].1);
    }
    let mut list: Vec<(String, Json)> = Vec::new();
    list.push(text_member("type", "array"));
    list.push(member("items", item));
    let ghost list_value = Json::Object(list);
    proof {
        reveal_strlit("type");
        reveal_strlit("items");
        assert(has_keys(list_value, seq!["type"@, "items"@]));
    }
    let mut ret_props: Vec<(String, Json)> = Vec::new();
    ret_props.push(member("permissions", Json::Object(list)));
    let ghost ret_keys = ret_props@.map_values(|p: (String, Json)| p.0@);
    let return_schema = object_schema(None, ret_props);
    proof {
        assert(required@.map_values(|s: &str| s@) =~= seq!["user_id"@, "context_id"@]);
        assert(ret_keys =~= seq!["permissions"@]);
        assert(schema_property(parameters, true, 0) == param_values[0].1);
        assert(schema_property(parameters, true, 1) == param_values[1].1);
        assert(schema_property(return_schema, false, 0) == list_value);
    }
    SkillMetadata {
        name: String::from_str(EFFECTIVE_PERMISSIONS_SKILL),
        description: String::from_str(EFFECTIVE_PERMISSIONS_DESCRIPTION),
        usage_examples: examples,
        parameters,
        return_schema,
    }
}

/// The metadata of the skill requesting a role assignment: its name,
/// description and examples; its parameters, the required UUIDs `user_id`,
/// `role_id` and `context_id` and the context type, one of the database
/// labels; and its result, the approval id and a status that is always
/// `AWAITING_HUMAN_APPROVAL`.
pub open spec fn is_assign_cross_role_metadata(m: SkillMetadata) -> bool {
    &&& m.name@ == ASSIGN_CROSS_ROLE_SKILL@
    &&& m.description@ == ASSIGN_CROSS_ROLE_DESCRIPTION@
    &&& m.usage_examples@.len() == 3
    &&& m.usage_examples@[0]@ == "Gán Nguyễn Văn A làm Trưởng phòng tại Phòng Kỹ thuật"@
    &&& m.usage_examples@[1]@ == "Thêm user xyz vào dự án Alpha với vai trò Thành viên"@
    &&& m.usage_examples@[2]@ == "Cấp quyền Quản lý chi nhánh cho nhân viên mới tại chi nhánh HCM"@
    &&& is_object_schema(
        m.parameters,
        Some(seq!["user_id"@, "role_id"@, "context_type"@, "context_id"@]),
        seq!["user_id"@, "role_id"@, "context_type"@, "context_id"@],
    )
    &&& is_property(
        schema_property(m.parameters, true, 0),
        "string"@,
        Some("uuid"@),
        Some("UUID của nhân viên cần gán quyền"@),
    )
    &&& is_property(
        schema_property(m.parameters, true, 1),
        "string"@,
        Some("uuid"@),
        Some("UUID của vai trò cần gán"@),
    )
    &&& is_enum_property(
        schema_property(m.parameters, true, 2),
        "string"@,
        seq!["DEPARTMENT"@, "PROJECT"@, "BRANCH"@],
        "Loại ngữ cảnh: DEPARTMENT (phòng ban), PROJECT (dự án), BRANCH (chi nhánh)"@,
    )
    &&& is_property(
        schema_property(m.parameters, true, 3),
        "string"@,
        Some("uuid"@),
        Some("UUID của ngữ cảnh (phòng ban/dự án/chi nhánh)"@),
    )
    &&& is_object_schema(m.return_schema, None, seq!["approval_id"@, "status"@])
    &&& is_property(
        schema_property(m.return_schema, false, 0),
        "string"@,
        Some("uuid"@),
        Some("UUID của yêu cầu chờ duyệt"@),
    )
    &&& is_enum_property(
        schema_property(m.return_schema, false, 1),
        "string"@,
        seq!["AWAITING_HUMAN_APPROVAL"@],
        "Trạng thái: luôn là AWAITING_HUMAN_APPROVAL"@,
    )
}

/// Metadata of the skill requesting a role assignment (which always waits
/// for a human approval).
pub fn assign_cross_role_metadata() -> (m: SkillMetadata)
    ensures
        is_assign_cross_role_metadata(m),
{
    let examples = strings(
        &[
            "Gán Nguyễn Văn A làm Trưởng phòng tại Phòng Kỹ thuật",
            "Thêm user xyz vào dự án Alpha với vai trò Thành viên",
            "Cấp quyền Quản lý chi nhánh cho nhân viên mới tại chi nhánh HCM",
        ],
    );
    let labels: &[&str] = &["DEPARTMENT", "PROJECT", "BRANCH"];
    let ctx_type = enum_property(
        "string",
        labels,
        "Loại ngữ cảnh: DEPARTMENT (phòng ban), PROJECT (dự án), BRANCH (chi nhánh)",
    );
    let mut params: Vec<(String, Json)> = Vec::new();
    params.push(
        member("user_id", property("string", Some("uuid"), Some("UUID của nhân viên cần gán quyền"))),
    );
    params.push(member("role_id", property("string", Some("uuid"), Some("UUID của vai trò cần gán"))));
    params.push(member("context_type", ctx_type));
    params.push(
        member(
            "context_id",
            property("string", Some("uuid"), Some("UUID của ngữ cảnh (phòng ban/dự án/chi nhánh)")),
        ),
    );
    let ghost param_keys = params@.map_values(|p: (String, Json)| p.0@);
    let ghost param_values = params@;
    let required: &[&str] = &["user_id", "role_id", "context_type", "context_id"];
    let parameters = object_schema(Some(required), params);
    let statuses: &[&str] = &["AWAITING_HUMAN_APPROVAL"];
    let status = enum_property("string", statuses, "Trạng thái: luôn là AWAITING_HUMAN_APPROVAL");
    let mut ret_props: Vec<(String, Json)> = Vec::new();
    ret_props.push(
        member("approval_id", property("string", Some("uuid"), Some("UUID của yêu cầu chờ duyệt"))),
    );
    ret_props.push(member("status", status));
    let ghost ret_keys = ret_props@.map_values(|p: (String, Json)| p.0@);
    let ghost ret_values = ret_props@;
    let return_schema = object_schema(None, ret_props);
    proof {
        assert(required@.map_values(|s: &str| s@) =~= seq!["user_id"@, "role_id"@, "context_type"@, "context_id"@]);
        assert(param_keys =~= seq!["user_id"@, "role_id"@, "context_type"@, "context_id"@]);
        assert(ret_keys =~= seq!["approval_id"@, "status"@]);
        assert(labels@.map_values(|s: &str| s@) =~= seq!["DEPARTMENT"@, "PROJECT"@, "BRANCH"@]);
        assert(statuses@.map_values(|s: &str| s@) =~= seq!["AWAITING_HUMAN_APPROVAL"@]);
        assert(schema_property(parameters, true, 0) == param_values[0].1);
        assert(schema_property(parameters, true, 1) == param_values[1].1);
        assert(schema_property(parameters, true, 2) == param_values[2].1);
        assert(schema_property(parameters, true, 3) == param_values[3].1);
        assert(schema_property(return_schema, false, 0) == ret_values[0].1);
        assert(schema_property(return_schema, false, 1) == ret_values[1].1);
    }
    SkillMetadata {
        name: String::from_str(ASSIGN_CROSS_ROLE_SKILL),
        description: String::from_str(ASSIGN_CROSS_ROLE_DESCRIPTION),
        usage_examples: examples,
        parameters,
        return_schema,
    }
}

/// Metadata of every IAM skill, in order.
pub fn register_iam_skills() -> (r: Vec<SkillMetadata>)
    ensures
        r@.len() == 2,
        is_effective_permissions_metadata(r@[0]),
        is_assign_cross_role_metadata(r@[1]),
{
    let mut r: Vec<SkillMetadata> = Vec::new();
    r.push(get_user_effective_permissions_metadata());
    r.push(assign_cross_role_metadata());
    r
}

/// A number member value with the given text.
pub open spec fn is_number(v: Json, text: Seq<char>) -> bool {
    match v {
        Json::Number(t) => t@ == text,
        _ => false,
    }
}

/// The JSON form of an effective permission (its fields, in order; ids as
/// UUID text, the context type by name).
pub open spec fn is_effective_permission_json(p: EffectivePermission, v: Json) -> bool {
    &&& has_keys(
        v,
        seq![
            "permission_id"@,
            "permission_code"@,
            "permission_name"@,
            "granted_by_role_id"@,
            "granted_by_role_name"@,
            "context_type"@,
            "context_id"@,
        ],
    )
    &&& is_text_member(member_at(v, 0), "permission_id"@, uuid_text(p.permission_id))
    &&& is_text_member(member_at(v, 1), "permission_code"@, p.permission_code@)
    &&& is_text_member(member_at(v, 2), "permission_name"@, p.permission_name@)
    &&& is_text_member(member_at(v, 3), "granted_by_role_id"@, uuid_text(p.granted_by_role_id))
    &&& is_text_member(member_at(v, 4), "granted_by_role_name"@, p.granted_by_role_name@)
    &&& is_text_member(member_at(v, 5), "context_type"@, spec_context_type_name(p.context_type))
    &&& is_text_member(member_at(v, 6), "context_id"@, uuid_text(p.context_id))
}

/// The JSON form of an effective permission.
pub fn effective_permission_json(p: &EffectivePermission) -> (r: Json)
    ensures
        is_effective_permission_json(*p, r),
{
    let mut m: Vec<(String, Json)> = Vec::new();
    m.push(string_member("permission_id", uuid_to_string(p.permission_id)));
    m.push(string_member("permission_code", p.permission_code.clone()));
    m.push(string_member("permission_name", p.permission_name.clone()));
    m.push(string_member("granted_by_role_id", uuid_to_string(p.granted_by_role_id)));
    m.push(string_member("granted_by_role_name", p.granted_by_role_name.clone()));
    m.push(string_member("context_type", context_type_name(p.context_type)));
    m.push(string_member("context_id", uuid_to_string(p.context_id)));
    Json::Object(m)
}

/// The message listing how many permissions a user holds in a context.
pub open spec fn effective_permissions_message(count: nat, user_id: u128, context_id: u128) -> Seq<char> {
    "Tìm thấy "@ + spec_decimal(count) + " quyền có hiệu lực của user "@ + uuid_text(user_id)
        + " tại context "@ + uuid_text(context_id)
}

/// The skill result listing a user's effective permissions in a context:
/// the user, the context, how many, and each permission in the given order.
pub fn effective_permissions_result(
    user_id: u128,
    context_id: u128,
    permissions: Vec<EffectivePermission>,
) -> (r: SkillResult)
    ensures
        r.success,
        r.approval_status is None,
        r.message@ == effective_permissions_message(permissions@.len(), user_id, context_id),
        r.data matches Some(d) && has_keys(
            d,
            seq!["user_id"@, "context_id"@, "total_permissions"@, "permissions"@],
        ) && is_text_member(member_at(d, 0), "user_id"@, uuid_text(user_id)) && is_text_member(
            member_at(d, 1),
            "context_id"@,
            uuid_text(context_id),
        ) && is_number(member_at(d, 2).1, spec_decimal(permissions@.len())) && (match member_at(
            d,
            3,
        ).1 {
            Json::Array(items) => items@.len() == permissions@.len() && forall|i: int|
                0 <= i < items@.len() ==> is_effective_permission_json(
                    permissions@[i],
                    #[trigger] items@[i],
                ),
            _ => false,
        }),
{
    let n = permissions.len();
    let mut items: Vec<Json> = Vec::new();
    let mut i: usize = 0;
    while i < n
        invariant
            n == permissions@.len(),
            i <= n,
            items@.len() == i,
            forall|k: int| 0 <= k < i ==> is_effective_permission_json(
                permissions@[k],
                #[trigger] items@[k],
            ),
        decreases n - i,
    {
        items.push(effective_permission_json(&permissions[i]));
        i = i + 1;
    }
    let count = decimal_text(n as u64);
    let mut d: Vec<(String, Json)> = Vec::new();
    d.push(string_member("user_id", uuid_to_string(user_id)));
    d.push(string_member("context_id", uuid_to_string(context_id)));
    d.push(member("total_permissions", Json::Number(decimal_text(n as u64))));
    d.push(member("permissions", Json::Array(items)));
    let mut message = String::from_str("Tìm thấy ");
    message.append(count.as_str());
    message.append(" quyền có hiệu lực của user ");
    message.append(uuid_to_string(user_id).as_str());
    message.append(" tại context ");
    message.append(uuid_to_string(context_id).as_str());
    SkillResult { success: true, data: Some(Json::Object(d)), message, approval_status: None }
}

/// Where a role-assignment request stands.
#[derive(Debug)]
pub enum AssignCrossRoleState {
    /// Nothing done yet.
    Start,
    /// Waiting to learn whether the role is active in the tenant.
    CheckingRole,
    /// Waiting to learn whether the user already holds the role there.
    CheckingAssignment,
    /// Waiting to learn whether the same request already waits for approval.
    CheckingPending,
    /// Waiting for the pending approval to be recorded.
    Creating,
    /// The skill has answered.
    Finished,
}

/// What the database answered.
#[derive(Debug)]
pub enum AssignCrossRoleEvent {
    /// The request is started.
    Begin,
    /// Whether the role exists, is active, and belongs to the tenant.
    RoleExists(bool),
    /// Whether the user already holds the role in the context, unexpired.
    AlreadyAssigned(bool),
    /// Whether the same assignment already waits for approval.
    PendingExists(bool),
    /// The pending approval was recorded with this id.
    ApprovalCreated(u128),
}

/// What the skill asks to be done next. None of these grants a role: the
/// only write is the recording of a request waiting for a human approval.
#[derive(Debug)]
pub enum AssignCrossRoleAction {
    /// Ask whether the role is active in the tenant.
    CheckRoleExists,
    /// Ask whether the user already holds the role in the context.
    CheckAlreadyAssigned,
    /// Ask whether a request for the same user, role and context (ids as
    /// text) already waits for approval.
    CheckPendingExists { user_id: String, role_id: String, context_id: String },
    /// Record a request of type `assign_cross_role`, waiting for human
    /// approval, with this payload.
    CreatePendingApproval { payload: Json },
    /// Answer.
    Finish(SkillResult),
    /// The event does not belong to this state; nothing to do.
    Ignore,
}

/// The answer that refuses a request: no data, the given message and status.
pub open spec fn is_refusal(r: SkillResult, message: Seq<char>, status: Option<ApprovalStatus>) -> bool {
    &&& !r.success
    &&& r.data is None
    &&& r.message@ == message
    &&& r.approval_status == status
}

/// Message for a role that is missing or inactive.
pub open spec fn role_missing_message(input: AssignCrossRoleInput) -> Seq<char> {
    "Role "@ + uuid_text(input.role_id) + " không tồn tại hoặc đã bị vô hiệu hóa"@
}

/// Message for an assignment the user already has.
pub open spec fn already_assigned_message(input: AssignCrossRoleInput) -> Seq<char> {
    "User "@ + uuid_text(input.user_id) + " đã có role "@ + uuid_text(input.role_id)
        + " tại context "@ + uuid_text(input.context_id) + " (type: "@ + spec_context_type_name(
        input.context_type,
    ) + "). Không cần gán lại."@
}

/// Message for a request that already waits for approval.
pub open spec fn duplicate_request_message() -> Seq<char> {
    "Đã có yêu cầu gán quyền tương tự đang chờ duyệt. Vui lòng chờ Admin xử lý."@
}

/// Description of an assignment in its payload.
pub open spec fn assignment_description(input: AssignCrossRoleInput) -> Seq<char> {
    "Gán role "@ + uuid_text(input.role_id) + " cho user "@ + uuid_text(input.user_id) + " tại "@
        + spec_context_type_name(input.context_type) + " "@ + uuid_text(input.context_id)
}

/// The payload of a requested assignment: the ids as UUID text, the context
/// type by its database label, and a description.
pub open spec fn is_assignment_payload(input: AssignCrossRoleInput, v: Json) -> bool {
    &&& has_keys(v, seq!["user_id"@, "role_id"@, "context_type"@, "context_id"@, "description"@])
    &&& is_text_member(member_at(v, 0), "user_id"@, uuid_text(input.user_id))
    &&& is_text_member(member_at(v, 1), "role_id"@, uuid_text(input.role_id))
    &&& is_text_member(member_at(v, 2), "context_type"@, spec_context_type_label(input.context_type))
    &&& is_text_member(member_at(v, 3), "context_id"@, uuid_text(input.context_id))
    &&& is_text_member(member_at(v, 4), "description"@, assignment_description(input))
}

/// Message once the request has been recorded.
pub open spec fn request_created_message(approval_id: u128) -> Seq<char> {
    "Đã tạo yêu cầu gán quyền (ID: "@ + uuid_text(approval_id)
        + "). Trạng thái: CHỜ DUYỆT. Giám đốc/Admin cần phê duyệt trước khi quyền có hiệu lực."@
}

/// The answer once the request has been recorded: it waits for a human.
pub open spec fn is_request_created(input: AssignCrossRoleInput, approval_id: u128, r: SkillResult) -> bool {
    &&& r.success
    &&& r.approval_status == Some(ApprovalStatus::AwaitingHumanApproval)
    &&& r.message@ == request_created_message(approval_id)
    &&& r.data matches Some(d) && has_keys(
        d,
        seq!["approval_id"@, "action_type"@, "payload"@, "status"@, "message_for_user"@],
    ) && is_text_member(member_at(d, 0), "approval_id"@, uuid_text(approval_id))
        && is_text_member(member_at(d, 1), "action_type"@, "assign_cross_role"@)
        && is_assignment_payload(input, member_at(d, 2).1) && is_text_member(
        member_at(d, 3),
        "status"@,
        "AWAITING_HUMAN_APPROVAL"@,
    ) && is_text_member(
        member_at(d, 4),
        "message_for_user"@,
        "Yêu cầu gán quyền đã được tạo. Giám đốc/Admin cần duyệt trên giao diện quản lý."@,
    )
}

/// Builds the payload of a requested assignment.
pub fn assignment_payload(input: &AssignCrossRoleInput) -> (r: Json)
    ensures
        is_assignment_payload(*input, r),
{
    let mut description = String::from_str("Gán role ");
    description.append(uuid_to_string(input.role_id).as_str());
    description.append(" cho user ");
    description.append(uuid_to_string(input.user_id).as_str());
    description.append(" tại ");
    description.append(context_type_name(input.context_type).as_str());
    description.append(" ");
    description.append(uuid_to_string(input.context_id).as_str());
    let mut m: Vec<(String, Json)> = Vec::new();
    m.push(string_member("user_id", uuid_to_string(input.user_id)));
    m.push(string_member("role_id", uuid_to_string(input.role_id)));
    m.push(string_member("context_type", context_type_label(input.context_type)));
    m.push(string_member("context_id", uuid_to_string(input.context_id)));
    m.push(string_member("description", description));
    Json::Object(m)
}

/// A refusal with the given message and status.
fn refusal(message: String, status: Option<ApprovalStatus>) -> (r: SkillResult)
    ensures
        is_refusal(r, message@, status),
{
    SkillResult { success: false, data: None, message, approval_status: status }
}

/// The answer once the request has been recorded.
fn request_created(input: &AssignCrossRoleInput, approval_id: u128) -> (r: SkillResult)
    ensures
        is_request_created(*input, approval_id, r),
{
    let mut d: Vec<(String, Json)> = Vec::new();
    d.push(string_member("approval_id", uuid_to_string(approval_id)));
    d.push(text_member("action_type", "assign_cross_role"));
    d.push(member("payload", assignment_payload(input)));
    d.push(text_member("status", "AWAITING_HUMAN_APPROVAL"));
    d.push(
        text_member(
            "message_for_user",
            "Yêu cầu gán quyền đã được tạo. Giám đốc/Admin cần duyệt trên giao diện quản lý.",
        ),
    );
    let mut message = String::from_str("Đã tạo yêu cầu gán quyền (ID: ");
    message.append(uuid_to_string(approval_id).as_str());
    message.append(
        "). Trạng thái: CHỜ DUYỆT. Giám đốc/Admin cần phê duyệt trước khi quyền có hiệu lực.",
    );
    SkillResult {
        success: true,
        data: Some(Json::Object(d)),
        message,
        approval_status: Some(ApprovalStatus::AwaitingHumanApproval),
    }
}

/// The state the role-assignment request moves to on an event.
pub open spec fn assign_next_state(state: AssignCrossRoleState, event: AssignCrossRoleEvent) -> AssignCrossRoleState {
    match (state, event) {
        (AssignCrossRoleState::Start, AssignCrossRoleEvent::Begin) => AssignCrossRoleState::CheckingRole,
        (AssignCrossRoleState::CheckingRole, AssignCrossRoleEvent::RoleExists(true)) => AssignCrossRoleState::CheckingAssignment,
        (AssignCrossRoleState::CheckingRole, AssignCrossRoleEvent::RoleExists(false)) => AssignCrossRoleState::Finished,
        (AssignCrossRoleState::CheckingAssignment, AssignCrossRoleEvent::AlreadyAssigned(false)) => AssignCrossRoleState::CheckingPending,
        (AssignCrossRoleState::CheckingAssignment, AssignCrossRoleEvent::AlreadyAssigned(true)) => AssignCrossRoleState::Finished,
        (AssignCrossRoleState::CheckingPending, AssignCrossRoleEvent::PendingExists(false)) => AssignCrossRoleState::Creating,
        (AssignCrossRoleState::CheckingPending, AssignCrossRoleEvent::PendingExists(true)) => AssignCrossRoleState::Finished,
        (AssignCrossRoleState::Creating, AssignCrossRoleEvent::ApprovalCreated(_)) => AssignCrossRoleState::Finished,
        (s, _) => s,
    }
}

/// The action the role-assignment request takes on an event.
pub open spec fn assign_action_ok(
    input: AssignCrossRoleInput,
    state: AssignCrossRoleState,
    event: AssignCrossRoleEvent,
    action: AssignCrossRoleAction,
) -> bool {
    match (state, event) {
        (AssignCrossRoleState::Start, AssignCrossRoleEvent::Begin) => action is CheckRoleExists,
        (AssignCrossRoleState::CheckingRole, AssignCrossRoleEvent::RoleExists(true)) => action is CheckAlreadyAssigned,
        (AssignCrossRoleState::CheckingRole, AssignCrossRoleEvent::RoleExists(false)) => (action matches AssignCrossRoleAction::Finish(r) && is_refusal(r, role_missing_message(input), None)),
        (AssignCrossRoleState::CheckingAssignment, AssignCrossRoleEvent::AlreadyAssigned(false)) => (action matches AssignCrossRoleAction::CheckPendingExists { user_id, role_id, context_id } && user_id@ == uuid_text(input.user_id) && role_id@ == uuid_text(input.role_id) && context_id@ == uuid_text(input.context_id)),
        (AssignCrossRoleState::CheckingAssignment, AssignCrossRoleEvent::AlreadyAssigned(true)) => (action matches AssignCrossRoleAction::Finish(r) && is_refusal(r, already_assigned_message(input), None)),
        (AssignCrossRoleState::CheckingPending, AssignCrossRoleEvent::PendingExists(false)) => (action matches AssignCrossRoleAction::CreatePendingApproval { payload } && is_assignment_payload(input, payload)),
        (AssignCrossRoleState::CheckingPending, AssignCrossRoleEvent::PendingExists(true)) => (action matches AssignCrossRoleAction::Finish(r) && is_refusal(r, duplicate_request_message(), Some(ApprovalStatus::AwaitingHumanApproval))),
        (AssignCrossRoleState::Creating, AssignCrossRoleEvent::ApprovalCreated(id)) => (action matches AssignCrossRoleAction::Finish(r) && is_request_created(input, id, r)),
        _ => action is Ignore,
    }
}

/// Advances a role-assignment request: the role must be active, the user
/// must not hold it already, and no identical request may be waiting; then a
/// request waiting for human approval is recorded. The role is never granted here.
pub fn assign_cross_role_step(
    input: &AssignCrossRoleInput,
    state: AssignCrossRoleState,
    event: AssignCrossRoleEvent,
) -> (r: (AssignCrossRoleState, AssignCrossRoleAction))
    ensures
        r.0 == assign_next_state(state, event),
        assign_action_ok(*input, state, event, r.1),
{
    match (state, event) {
        (AssignCrossRoleState::Start, AssignCrossRoleEvent::Begin) => (
            AssignCrossRoleState::CheckingRole,
            AssignCrossRoleAction::CheckRoleExists,
        ),
        (AssignCrossRoleState::CheckingRole, AssignCrossRoleEvent::RoleExists(exists)) => {
            if exists {
                (AssignCrossRoleState::CheckingAssignment, AssignCrossRoleAction::CheckAlreadyAssigned)
            } else {
                let mut m = String::from_str("Role ");
                m.append(uuid_to_string(input.role_id).as_str());
                m.append(" không tồn tại hoặc đã bị vô hiệu hóa");
                (AssignCrossRoleState::Finished, AssignCrossRoleAction::Finish(refusal(m, None)))
            }
        },
        (AssignCrossRoleState::CheckingAssignment, AssignCrossRoleEvent::AlreadyAssigned(assigned)) => {
            if assigned {
                let mut m = String::from_str("User ");
                m.append(uuid_to_string(input.user_id).as_str());
                m.append(" đã có role ");
                m.append(uuid_to_string(input.role_id).as_str());
                m.append(" tại context ");
                m.append(uuid_to_string(input.context_id).as_str());
                m.append(" (type: ");
                m.append(context_type_name(input.context_type).as_str());
                m.append("). Không cần gán lại.");
                (AssignCrossRoleState::Finished, AssignCrossRoleAction::Finish(refusal(m, None)))
            } else {
                (
                    AssignCrossRoleState::CheckingPending,
                    AssignCrossRoleAction::CheckPendingExists {
                        user_id: uuid_to_string(input.user_id),
                        role_id: uuid_to_string(input.role_id),
                        context_id: uuid_to_string(input.context_id),
                    },
                )
            }
        },
        (AssignCrossRoleState::CheckingPending, AssignCrossRoleEvent::PendingExists(pending)) => {
            if pending {
                let m = String::from_str(
                    "Đã có yêu cầu gán quyền tương tự đang chờ duyệt. Vui lòng chờ Admin xử lý.",
                );
                (
                    AssignCrossRoleState::Finished,
                    AssignCrossRoleAction::Finish(
                        refusal(m, Some(ApprovalStatus::AwaitingHumanApproval)),
                    ),
                )
            } else {
                (
                    AssignCrossRoleState::Creating,
                    AssignCrossRoleAction::CreatePendingApproval { payload: assignment_payload(input) },
                )
            }
        },
        (AssignCrossRoleState::Creating, AssignCrossRoleEvent::ApprovalCreated(id)) => (
            AssignCrossRoleState::Finished,
            AssignCrossRoleAction::Finish(request_created(input, id)),
        ),
        (s, _) => (s, AssignCrossRoleAction::Ignore),
    }
}

/// Any answer that reports success waits for a human approval.
pub proof fn law_success_waits_for_approval(
    input: AssignCrossRoleInput,
    state: AssignCrossRoleState,
    event: AssignCrossRoleEvent,
    action: AssignCrossRoleAction,
)
    requires
        assign_action_ok(input, state, event, action),
        action matches AssignCrossRoleAction::Finish(r) && r.success,
    ensures
        action->Finish_0.approval_status == Some(ApprovalStatus::AwaitingHumanApproval),
        state is Creating,
        event is ApprovalCreated,
{
}

/// Approving a role assignment that the assistant requested makes exactly the
/// assignment it asked for: its user, role and context ids as UUID text and
/// its context type by name.
pub proof fn law_skill_request_approved_as_requested(input: AssignCrossRoleInput, a: PendingApproval)
    requires
        a.action_type@ == assign_cross_role_action(),
        is_assignment_payload(input, a.payload),
    ensures
        spec_approve_plan(Some(a)) == Ok::<_, AppErrorView>(
            Some(
                (
                    uuid_text(input.user_id),
                    uuid_text(input.role_id),
                    spec_context_type_label(input.context_type),
                    uuid_text(input.context_id),
                ),
            ),
        ),
{
    let keys = seq!["user_id"@, "role_id"@, "context_type"@, "context_id"@, "description"@];
    reveal_strlit("user_id");
    reveal_strlit("role_id");
    reveal_strlit("context_type");
    reveal_strlit("context_id");
    assert(keys[0] != keys[1]) by { assert(keys[0][0] != keys[1][0]); }
    assert(keys[0] != keys[2]) by { assert(keys[0].len() != keys[2].len()); }
    assert(keys[1] != keys[2]) by { assert(keys[1].len() != keys[2].len()); }
    assert(keys[0] != keys[3]) by { assert(keys[0].len() != keys[3].len()); }
    assert(keys[1] != keys[3]) by { assert(keys[1].len() != keys[3].len()); }
    assert(keys[2] != keys[3]) by { assert(keys[2].len() != keys[3].len()); }
    lemma_member_lookup(a.payload, keys, 0);
    lemma_member_lookup(a.payload, keys, 1);
    lemma_member_lookup(a.payload, keys, 2);
    lemma_member_lookup(a.payload, keys, 3);
}

/// A request for an assignment the user already holds, or one identical to a
/// request already waiting, records nothing: it never leads to recording a
/// new request, and at the step that finds it the request ends with a refusal.
pub proof fn law_repeated_request_records_nothing(
    input: AssignCrossRoleInput,
    state: AssignCrossRoleState,
    event: AssignCrossRoleEvent,
    action: AssignCrossRoleAction,
)
    requires
        assign_action_ok(input, state, event, action),
        event == AssignCrossRoleEvent::AlreadyAssigned(true) || event
            == AssignCrossRoleEvent::PendingExists(true),
    ensures
        !(action is CreatePendingApproval),
        !(assign_next_state(state, event) is Creating) || state is Creating,
        state is CheckingAssignment && event == AssignCrossRoleEvent::AlreadyAssigned(true) ==> (
        assign_next_state(state, event) is Finished && (action matches AssignCrossRoleAction::Finish(r)
            && is_refusal(r, already_assigned_message(input), None))),
        state is CheckingPending && event == AssignCrossRoleEvent::PendingExists(true) ==> (
        assign_next_state(state, event) is Finished && (action matches AssignCrossRoleAction::Finish(r)
            && is_refusal(r, duplicate_request_message(), Some(ApprovalStatus::AwaitingHumanApproval)))),
{
}

/// The state a role-assignment request reaches after a sequence of events.
pub open spec fn run_assign(events: Seq<AssignCrossRoleEvent>) -> AssignCrossRoleState
    decreases events.len(),
{
    if events.len() == 0 {
        AssignCrossRoleState::Start
    } else {
        assign_next_state(run_assign(events.drop_last()), events.last())
    }
}

/// What the events seen so far say about each state.
pub open spec fn history_fits(events: Seq<AssignCrossRoleEvent>, state: AssignCrossRoleState) -> bool {
    &&& (state is CheckingAssignment || state is CheckingPending || state is Creating)
        ==> events.contains(AssignCrossRoleEvent::RoleExists(true))
    &&& (state is CheckingPending || state is Creating) ==> events.contains(
        AssignCrossRoleEvent::AlreadyAssigned(false),
    )
    &&& state is Creating ==> events.contains(AssignCrossRoleEvent::PendingExists(false))
}

proof fn lemma_history_fits(events: Seq<AssignCrossRoleEvent>)
    ensures
        history_fits(events, run_assign(events)),
    decreases events.len(),
{
    if events.len() > 0 {
        let prefix = events.drop_last();
        lemma_history_fits(prefix);
        let e = events.last();
        assert(events == prefix.push(e));
        assert forall|x: AssignCrossRoleEvent| prefix.contains(x) implies events.contains(x) by {
            let i = choose|i: int| 0 <= i < prefix.len() && prefix[i] == x;
            assert(events[i] == x);
        }
        assert(events[events.len() - 1] == e);
    }
}

/// A role-assignment request is only recorded for approval after the role
/// was found active, the user found not to hold it, and no identical
/// request found waiting, whatever the order and repetition of events.
pub proof fn law_request_recorded_only_after_checks(events: Seq<AssignCrossRoleEvent>)
    requires
        run_assign(events) is Creating,
    ensures
        events.contains(AssignCrossRoleEvent::RoleExists(true)),
        events.contains(AssignCrossRoleEvent::AlreadyAssigned(false)),
        events.contains(AssignCrossRoleEvent::PendingExists(false)),
{
    lemma_history_fits(events);
}

/// The only write a role-assignment request asks for is the recording of one
/// request waiting for approval, made when the last check (no identical
/// request waiting) passes, with the payload of the requested assignment;
/// every other action is one of the three reads, an answer, or nothing. The
/// answer after the recording reports success, waiting for human approval.
pub proof fn law_only_write_is_the_waiting_request(
    input: AssignCrossRoleInput,
    state: AssignCrossRoleState,
    event: AssignCrossRoleEvent,
    action: AssignCrossRoleAction,
)
    requires
        assign_action_ok(input, state, event, action),
    ensures
        action is CheckRoleExists || action is CheckAlreadyAssigned || action is CheckPendingExists
            || action is Finish || action is Ignore || action is CreatePendingApproval,
        action is CreatePendingApproval ==> is_record_step(state, event) && assign_next_state(
            state,
            event,
        ) is Creating && is_assignment_payload(input, action->payload),
        state is Creating && event is ApprovalCreated ==> (action matches AssignCrossRoleAction::Finish(
            r,
        ) && r.success && r.approval_status == Some(ApprovalStatus::AwaitingHumanApproval)),
{
}

/// The step at which a request waiting for approval is recorded.
pub open spec fn is_record_step(state: AssignCrossRoleState, event: AssignCrossRoleEvent) -> bool {
    state is CheckingPending && event == AssignCrossRoleEvent::PendingExists(false)
}

/// The steps that answer with a refusal.
pub open spec fn is_refusal_step(state: AssignCrossRoleState, event: AssignCrossRoleEvent) -> bool {
    ||| state is CheckingRole && event == AssignCrossRoleEvent::RoleExists(false)
    ||| state is CheckingAssignment && event == AssignCrossRoleEvent::AlreadyAssigned(true)
    ||| state is CheckingPending && event == AssignCrossRoleEvent::PendingExists(true)
}

/// How many requests a sequence of events records.
pub open spec fn recorded_count(events: Seq<AssignCrossRoleEvent>) -> nat
    decreases events.len(),
{
    if events.len() == 0 {
        0
    } else {
        recorded_count(events.drop_last()) + if is_record_step(
            run_assign(events.drop_last()),
            events.last(),
        ) {
            1nat
        } else {
            0nat
        }
    }
}

/// How many refusals a sequence of events answers with.
pub open spec fn refused_count(events: Seq<AssignCrossRoleEvent>) -> nat
    decreases events.len(),
{
    if events.len() == 0 {
        0
    } else {
        refused_count(events.drop_last()) + if is_refusal_step(
            run_assign(events.drop_last()),
            events.last(),
        ) {
            1nat
        } else {
            0nat
        }
    }
}

/// How far a request has gone.
spec fn stage(s: AssignCrossRoleState) -> int {
    match s {
        AssignCrossRoleState::Start => 0,
        AssignCrossRoleState::CheckingRole => 1,
        AssignCrossRoleState::CheckingAssignment => 2,
        AssignCrossRoleState::CheckingPending => 3,
        AssignCrossRoleState::Creating => 4,
        AssignCrossRoleState::Finished => 5,
    }
}

proof fn lemma_write_counts(events: Seq<AssignCrossRoleEvent>)
    ensures
        recorded_count(events) + refused_count(events) <= 1,
        recorded_count(events) + refused_count(events) == 1 ==> stage(run_assign(events)) >= 4,
        recorded_count(events) == 1 ==> (run_assign(events) is Creating || run_assign(events) is Finished),
        refused_count(events) == 1 ==> run_assign(events) is Finished,
    decreases events.len(),
{
    if events.len() > 0 {
        lemma_write_counts(events.drop_last());
    }
}

/// A role-assignment request, whatever the order and repetition of events,
/// records at most one request waiting for approval, and never both records
/// one and answers with a refusal; once it has recorded one, it is waiting
/// for the recording's id or has answered.
pub proof fn law_at_most_one_request_recorded(events: Seq<AssignCrossRoleEvent>)
    ensures
        recorded_count(events) <= 1,
        !(recorded_count(events) == 1 && refused_count(events) == 1),
        recorded_count(events) == 1 ==> (run_assign(events) is Creating || run_assign(events) is Finished),
{
    lemma_write_counts(events);
}

} // verus!
