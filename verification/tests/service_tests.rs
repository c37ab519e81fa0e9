use erp_ai::json::as_str;
use erp_ai::service::health_status;
use erp_ai::settings::{port_or_default, setting_or, DEFAULT_AI_PROVIDER, DEFAULT_APP_PORT, DEFAULT_JWT_SECRET};

#[test]
fn health_check_answer() {
    let h = health_status();
    assert_eq!(as_str(h.field("status")), Some("healthy".to_string()));
    assert_eq!(as_str(h.field("service")), Some("erp_ai".to_string()));
    assert_eq!(as_str(h.field("version")), Some("0.1.0".to_string()));
}

#[test]
fn settings_fall_back_to_defaults() {
    assert_eq!(setting_or(None, DEFAULT_AI_PROVIDER), "gemini");
    assert_eq!(setting_or(Some("ollama".into()), DEFAULT_AI_PROVIDER), "ollama");
    assert_eq!(setting_or(None, DEFAULT_JWT_SECRET), "dev-secret-change-in-production");
    assert_eq!(port_or_default(None), 3000);
    assert_eq!(DEFAULT_APP_PORT, 3000);
    assert_eq!(port_or_default(Some(8080)), 8080);
}
