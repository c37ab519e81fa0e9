//! Service-level answers that do not belong to a module.

use vstd::prelude::*;
use crate::json::{Json, is_text_member, text_member, has_keys, member_at};

verus! {

/// The answer of the health check: status, service name and version.
pub fn health_status() -> (r: Json)
    ensures
        has_keys(r, seq!["status"@, "service"@, "version"@]),
        is_text_member(member_at(r, 0), "status"@, "healthy"@),
        is_text_member(member_at(r, 1), "service"@, "erp_ai"@),
        is_text_member(member_at(r, 2), "version"@, "0.1.0"@),
{
    let mut m: Vec<(String, Json)> = Vec::new();
    m.push(text_member("status", "healthy"));
    m.push(text_member("service", "erp_ai"));
    m.push(text_member("version", "0.1.0"));
    Json::Object(m)
}

} // verus!
