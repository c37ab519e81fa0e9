use erp_ai::ai::ai_parent_id;
use erp_ai::errors::AppError;
use erp_ai::iam_rules::tenant_context_sql;

#[test]
fn uuid_text_is_hyphenated_lowercase() {
    assert_eq!(
        tenant_context_sql(0x67e55044_10b1_426f_9247_bb680e5fe0c8),
        "SET LOCAL app.current_tenant_id = '67e55044-10b1-426f-9247-bb680e5fe0c8'"
    );
    assert_eq!(tenant_context_sql(0), "SET LOCAL app.current_tenant_id = '00000000-0000-0000-0000-000000000000'");
}

#[test]
fn uuid_parse_reads_back_and_refuses_garbage() {
    let x: u128 = 0xa1a2a3a4_b1b2_c1c2_d1d2_d3d4d5d6d7d8;
    assert_eq!(ai_parent_id(&Some("a1a2a3a4-b1b2-c1c2-d1d2-d3d4d5d6d7d8".to_string())), Ok(Some(x)));
    assert_eq!(ai_parent_id(&Some("A1A2A3A4-B1B2-C1C2-D1D2-D3D4D5D6D7D8".to_string())), Ok(Some(x)));
    assert_eq!(ai_parent_id(&Some("not-a-uuid".to_string())), Err(AppError::BadRequest("Invalid parent ID".into())));
    assert_eq!(ai_parent_id(&Some(String::new())), Err(AppError::BadRequest("Invalid parent ID".into())));
    assert_eq!(ai_parent_id(&None), Ok(None));
}

#[test]
fn uuid_forms_accepted() {
    let x: u128 = 0xa1a2a3a4_b1b2_c1c2_d1d2_d3d4d5d6d7d8;
    for form in [
        "a1a2a3a4b1b2c1c2d1d2d3d4d5d6d7d8",
        "{a1a2a3a4-b1b2-c1c2-d1d2-d3d4d5d6d7d8}",
        "urn:uuid:a1a2a3a4-b1b2-c1c2-d1d2-d3d4d5d6d7d8",
        "URN:UUID:A1A2A3A4-B1B2-C1C2-D1D2-D3D4D5D6D7D8",
    ] {
        assert_eq!(ai_parent_id(&Some(form.to_string())), Ok(Some(x)));
    }
    for bad in ["a1a2a3a4-b1b2-c1c2-d1d2-d3d4d5d6d7dg", "{a1a2a3a4-b1b2-c1c2-d1d2-d3d4d5d6d7d8", "urn:uuid-a1a2a3a4-b1b2-c1c2-d1d2-d3d4d5d6d7d8"] {
        assert_eq!(ai_parent_id(&Some(bad.to_string())), Err(AppError::BadRequest("Invalid parent ID".into())));
    }
}
