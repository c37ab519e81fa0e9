//! Plain-value models of the IAM tables.
//!
//! Identifiers are UUIDs held as their 128-bit big-endian value; timestamps are
//! microseconds since the UNIX epoch.

use vstd::prelude::*;
use crate::json::Json;

verus! {

/// Kind of context in which a role is granted (PostgreSQL `context_type_enum`).
#[derive(Debug, Clone, Copy, PartialEq, Eq, Structural)]
pub enum ContextType {
    Department,
    Project,
    Branch,
}

/// Status of a human-in-the-loop approval request (PostgreSQL `approval_status_enum`).
#[derive(Debug, Clone, Copy, PartialEq, Eq, Structural)]
pub enum ApprovalStatus {
    AwaitingHumanApproval,
    Approved,
    Rejected,
}

/// A department (or branch) of the organisation chart.
#[derive(Debug)]
pub struct Department {
    pub id: u128,
    pub tenant_id: u128,
    pub name: String,
    pub code: String,
    pub parent_id: Option<u128>,
    /// ltree path, e.g. `company.hanoi.engineering`
    pub path: String,
    /// depth in the tree, 0 for a root
    pub level: i32,
    pub description: Option<String>,
    pub is_active: bool,
    pub created_at: i64,
    pub updated_at: i64,
}

/// A node of the nested organisation chart.
#[derive(Debug)]
pub struct DepartmentTreeNode {
    pub department: Department,
    pub children: Vec<DepartmentTreeNode>,
}

/// A role defined in a tenant (e.g. head of department).
#[derive(Debug)]
pub struct Role {
    pub id: u128,
    pub tenant_id: u128,
    pub name: String,
    pub code: String,
    pub description: Option<String>,
    /// System roles cannot be changed or removed.
    pub is_system: bool,
    pub is_active: bool,
    pub created_at: i64,
    pub updated_at: i64,
}

/// An elementary permission (e.g. `approve_order`).
#[derive(Debug)]
pub struct Permission {
    pub id: u128,
    pub tenant_id: u128,
    pub code: String,
    pub name: String,
    pub description: Option<String>,
    /// Module owning the permission, e.g. `inventory`.
    pub module: Option<String>,
    pub created_at: i64,
}

/// A permission granted by a role.
#[derive(Debug)]
pub struct RolePermission {
    pub id: u128,
    pub tenant_id: u128,
    pub role_id: u128,
    pub permission_id: u128,
    pub created_at: i64,
}

/// "User A has role B in context C".
#[derive(Debug)]
pub struct UserContextRole {
    pub id: u128,
    pub tenant_id: u128,
    pub user_id: u128,
    pub role_id: u128,
    pub context_type: ContextType,
    pub context_id: u128,
    pub assigned_at: i64,
    pub assigned_by: Option<u128>,
    /// End of the grant; none for a permanent one.
    pub expires_at: Option<i64>,
}

/// A permission a user holds in a context, with the role that grants it.
#[derive(Debug)]
pub struct EffectivePermission {
    pub permission_id: u128,
    pub permission_code: String,
    pub permission_name: String,
    pub granted_by_role_id: u128,
    pub granted_by_role_name: String,
    pub context_type: ContextType,
    pub context_id: u128,
}

/// A sensitive action waiting for a human decision.
#[derive(Debug)]
pub struct PendingApproval {
    pub id: u128,
    pub tenant_id: u128,
    /// e.g. `assign_cross_role`
    pub action_type: String,
    pub payload: Json,
    pub status: ApprovalStatus,
    pub requested_by: u128,
    pub approved_by: Option<u128>,
    pub reason: Option<String>,
    pub created_at: i64,
    pub resolved_at: Option<i64>,
}

/// What a permission check asks.
#[derive(Debug)]
pub struct PermissionCheckInput {
    pub user_id: u128,
    pub tenant_id: u128,
    pub permission_code: String,
    pub context_type: ContextType,
    pub context_id: u128,
}

/// A request to give a user a role in a context.
#[derive(Debug, Clone, Copy, PartialEq, Eq, Structural)]
pub struct AssignCrossRoleInput {
    pub user_id: u128,
    pub role_id: u128,
    pub context_type: ContextType,
    pub context_id: u128,
}

/// Body of `POST /api/departments`.
#[derive(Debug)]
pub struct CreateDepartmentRequest {
    pub name: String,
    pub code: String,
    pub parent_id: Option<u128>,
    pub description: Option<String>,
}

/// Body of `PUT /api/departments/{id}`: the fields to change.
#[derive(Debug)]
pub struct UpdateDepartmentRequest {
    pub name: Option<String>,
    pub description: Option<String>,
    pub is_active: Option<bool>,
}

/// Body of `POST /api/roles`.
#[derive(Debug)]
pub struct CreateRoleRequest {
    pub name: String,
    pub code: String,
    pub description: Option<String>,
}

/// Body of `PUT /api/roles/{id}`: the fields to change.
#[derive(Debug)]
pub struct UpdateRoleRequest {
    pub name: Option<String>,
    pub description: Option<String>,
    pub is_active: Option<bool>,
}

/// Body of `POST /api/permissions`.
#[derive(Debug)]
pub struct CreatePermissionRequest {
    pub code: String,
    pub name: String,
    pub description: Option<String>,
    pub module: Option<String>,
}

/// Body of the approve and reject calls.
#[derive(Debug)]
pub struct ApprovalActionRequest {
    pub reason: Option<String>,
}

/// The permission a route requires, and the kind of context it must hold in.
#[derive(Debug)]
pub struct PermissionRequirement {
    /// e.g. `approve_order`
    pub permission_code: String,
    pub context_type: ContextType,
}

impl PermissionRequirement {
    /// A requirement of the given permission in the given kind of context.
    pub fn new(permission_code: String, context_type: ContextType) -> (r: Self)
        ensures
            r.permission_code@ == permission_code@,
            r.context_type == context_type,
    {
        PermissionRequirement { permission_code, context_type }
    }
}

/// The name a context type is printed with (its Rust name), as in JSON payloads.
pub open spec fn spec_context_type_name(t: ContextType) -> Seq<char> {
    match t {
        ContextType::Department => "Department"@,
        ContextType::Project => "Project"@,
        ContextType::Branch => "Branch"@,
    }
}

/// The name a context type is printed with.
pub fn context_type_name(t: ContextType) -> (r: String)
    ensures
        r@ == spec_context_type_name(t),
{
    match t {
        ContextType::Department => String::from_str("Department"),
        ContextType::Project => String::from_str("Project"),
        ContextType::Branch => String::from_str("Branch"),
    }
}

/// The label of a context type in the database enum `context_type_enum`
/// (`SCREAMING_SNAKE_CASE`), which is how role-assignment payloads record it
/// so that approving them can cast it back to the enum.
pub open spec fn spec_context_type_label(t: ContextType) -> Seq<char> {
    match t {
        ContextType::Department => "DEPARTMENT"@,
        ContextType::Project => "PROJECT"@,
        ContextType::Branch => "BRANCH"@,
    }
}

/// The database label of a context type.
pub fn context_type_label(t: ContextType) -> (r: String)
    ensures
        r@ == spec_context_type_label(t),
{
    match t {
        ContextType::Department => String::from_str("DEPARTMENT"),
        ContextType::Project => String::from_str("PROJECT"),
        ContextType::Branch => String::from_str("BRANCH"),
    }
}

/// The ASCII upper-case form of a character (other characters unchanged).
pub open spec fn ascii_upper(c: char) -> char {
    if 0x61 <= (c as u32) <= 0x7A {
        ((c as u32) - 0x20) as char
    } else {
        c
    }
}

/// A context type's printed name is its variant name, which is its database
/// label spelt with only the first letter upper-case: the two agree letter for
/// letter up to ASCII case, the name starts upper-case and goes on lower-case.
/// Distinct context types get distinct names and distinct labels.
pub proof fn law_context_type_names(t: ContextType, u: ContextType)
    ensures
        spec_context_type_name(t).len() == spec_context_type_label(t).len(),
        forall|i: int|
            0 <= i < spec_context_type_name(t).len() ==> ascii_upper(
                #[trigger] spec_context_type_name(t)[i],
            ) == spec_context_type_label(t)[i],
        forall|i: int|
            0 < i < spec_context_type_name(t).len() ==> #[trigger] spec_context_type_name(t)[i]
                != spec_context_type_label(t)[i],
        spec_context_type_name(t)[0] == spec_context_type_label(t)[0],
        t != u ==> spec_context_type_name(t) != spec_context_type_name(u),
        t != u ==> spec_context_type_label(t) != spec_context_type_label(u),
{
    reveal_strlit("Department");
    reveal_strlit("Project");
    reveal_strlit("Branch");
    reveal_strlit("DEPARTMENT");
    reveal_strlit("PROJECT");
    reveal_strlit("BRANCH");
    if t != u {
        assert(spec_context_type_name(t).len() != spec_context_type_name(u).len());
        assert(spec_context_type_label(t).len() != spec_context_type_label(u).len());
    }
}

} // verus!
