use erp_ai::ai::{
    ai_action_plan, AIAction,
    ai_cache_key, ai_department_code, ai_department_created_message, ai_department_path, ai_flow_step,
    ai_parent_id, bearer_header, extract_json_text, gemini_reply, gemini_request, gemini_url,
    is_success_status, ollama_reply, ollama_request, ollama_url, openai_reply, openai_request,
    openai_url, provider_kind, redis_cache_key, AICommandResponse, AIProviderKind, AiFlowAction,
    AiFlowEvent, AiFlowState, GeminiCandidate, GeminiCandidateContent, GeminiCandidatePart,
    GeminiResponse, BRAIN_PROMPT, OPENAI_PROMPT,
};
use erp_ai::errors::AppError;
use erp_ai::json::{as_str, Json};

fn obj(members: Vec<(&str, Json)>) -> Json {
    Json::Object(members.into_iter().map(|(k, v)| (k.to_string(), v)).collect())
}

#[test]
fn json_is_cut_from_first_open_to_last_close_brace() {
    assert_eq!(extract_json_text("Sure! {\"message\": \"hi\", \"action\": null} Done."), "{\"message\": \"hi\", \"action\": null}");
    assert_eq!(extract_json_text("<think>{a}</think>{\"b\": {\"c\": 1}}"), "{a}</think>{\"b\": {\"c\": 1}}");
    assert_eq!(extract_json_text("no braces"), "no braces");
    assert_eq!(extract_json_text("only { open"), "only { open");
    assert_eq!(extract_json_text("only } close"), "only } close");
    assert_eq!(extract_json_text("}{"), "");
}

#[test]
fn provider_names() {
    assert_eq!(provider_kind("gemini"), Some(AIProviderKind::Gemini));
    assert_eq!(provider_kind("ollama"), Some(AIProviderKind::Ollama));
    assert_eq!(provider_kind("openai"), Some(AIProviderKind::OpenAI));
    assert_eq!(provider_kind("Gemini"), None);
    assert_eq!(provider_kind(""), None);
}

#[test]
fn gemini_call() {
    assert_eq!(
        gemini_url("KEY"),
        "https://generativelanguage.googleapis.com/v1beta/models/gemini-2.5-flash:generateContent?key=KEY"
    );
    let req = gemini_request("Tạo phòng Kỹ thuật");
    assert_eq!(req.contents.len(), 1);
    assert_eq!(req.contents[0].role, "user");
    assert_eq!(req.contents[0].parts[0].text, "Tạo phòng Kỹ thuật");
    assert_eq!(req.system_instruction.as_ref().unwrap().parts[0].text, BRAIN_PROMPT);
    assert!(BRAIN_PROMPT.contains("You are the \"Brain\" of an AI-Native ERP System."));
    assert!(is_success_status(200) && is_success_status(299));
    assert!(!is_success_status(199) && !is_success_status(300) && !is_success_status(404));
}

#[test]
fn gemini_reply_takes_first_part_of_first_candidate() {
    let resp = GeminiResponse {
        candidates: vec![
            GeminiCandidate { content: GeminiCandidateContent { parts: vec![GeminiCandidatePart { text: "first".into() }, GeminiCandidatePart { text: "second".into() }] } },
            GeminiCandidate { content: GeminiCandidateContent { parts: vec![GeminiCandidatePart { text: "other".into() }] } },
        ],
    };
    assert_eq!(gemini_reply(&resp), Ok("first".to_string()));
    let empty = GeminiResponse { candidates: vec![] };
    assert_eq!(gemini_reply(&empty), Err(AppError::Internal("Empty response from AI".into())));
    let no_parts = GeminiResponse { candidates: vec![GeminiCandidate { content: GeminiCandidateContent { parts: vec![] } }] };
    assert_eq!(gemini_reply(&no_parts), Err(AppError::Internal("Empty response from AI".into())));
}

#[test]
fn ollama_call() {
    assert_eq!(ollama_url("http://localhost:11434"), "http://localhost:11434/api/chat");
    let req = ollama_request("deepseek-r1:7b", "hello");
    assert_eq!(as_str(req.field("model")), Some("deepseek-r1:7b".into()));
    assert_eq!(req.field("stream"), Some(&Json::Bool(false)));
    assert_eq!(as_str(req.field("format")), Some("json".into()));
    let msgs = req.field("messages").unwrap();
    assert_eq!(as_str(msgs.element(0).unwrap().field("role")), Some("system".into()));
    assert_eq!(as_str(msgs.element(0).unwrap().field("content")), Some(BRAIN_PROMPT.into()));
    assert_eq!(as_str(msgs.element(1).unwrap().field("role")), Some("user".into()));
    assert_eq!(as_str(msgs.element(1).unwrap().field("content")), Some("hello".into()));
    let body = obj(vec![("model", Json::text("m")), ("message", obj(vec![("role", Json::text("assistant")), ("content", Json::text("{\"x\":1}"))]))]);
    assert_eq!(ollama_reply(&body), Ok("{\"x\":1}".to_string()));
    let bad = obj(vec![("message", obj(vec![("content", Json::Null)]))]);
    assert_eq!(ollama_reply(&bad), Err(AppError::Internal("Empty response from Ollama".into())));
    assert_eq!(ollama_reply(&Json::Null), Err(AppError::Internal("Empty response from Ollama".into())));
}

#[test]
fn openai_call() {
    assert_eq!(openai_url("https://api.openai.com/v1"), "https://api.openai.com/v1/chat/completions");
    assert_eq!(bearer_header("sk-1"), "Bearer sk-1");
    let req = openai_request("gpt-4o", "hi");
    assert_eq!(as_str(req.field("model")), Some("gpt-4o".into()));
    assert_eq!(as_str(req.field("response_format").unwrap().field("type")), Some("json_object".into()));
    let msgs = req.field("messages").unwrap();
    assert_eq!(as_str(msgs.element(0).unwrap().field("content")), Some(OPENAI_PROMPT.into()));
    let body = obj(vec![("choices", Json::Array(vec![obj(vec![("message", obj(vec![("content", Json::text("answer"))]))])]))]);
    assert_eq!(openai_reply(&body), Ok("answer".to_string()));
    let empty = obj(vec![("choices", Json::Array(vec![]))]);
    assert_eq!(openai_reply(&empty), Err(AppError::Internal("Empty response from OpenAI".into())));
}

#[test]
fn cache_keys() {
    assert_eq!(ai_cache_key("  Tạo Phòng Ban  "), "tạo phòng ban");
    assert_eq!(ai_cache_key("Hello"), ai_cache_key("hello \n"));
    assert_eq!(redis_cache_key("hello"), "ai_cache:hello");
}

fn response(msg: &str) -> AICommandResponse {
    AICommandResponse { message: msg.to_string(), action: None }
}

#[test]
fn cached_answer_skips_provider() {
    let (s, a) = ai_flow_step(AiFlowState::Start, AiFlowEvent::Begin);
    assert!(matches!(s, AiFlowState::LookingUp));
    assert!(matches!(a, AiFlowAction::LookupCache));
    let (s, a) = ai_flow_step(s, AiFlowEvent::CacheHit(response("cached")));
    assert!(matches!(s, AiFlowState::Done));
    match a {
        AiFlowAction::Reply(Ok(r)) => assert_eq!(r.message, "cached"),
        other => panic!("unexpected {:?}", other),
    }
}

#[test]
fn fresh_answer_is_stored_for_a_day() {
    let (s, _) = ai_flow_step(AiFlowState::Start, AiFlowEvent::Begin);
    let (s, a) = ai_flow_step(s, AiFlowEvent::CacheMiss);
    assert!(matches!(a, AiFlowAction::CallProvider));
    let (s, a) = ai_flow_step(s, AiFlowEvent::ProviderReplied(Ok(response("fresh"))));
    assert!(matches!(s, AiFlowState::Done));
    match a {
        AiFlowAction::StoreAndReply { ttl_secs, response } => {
            assert_eq!(ttl_secs, 86400);
            assert_eq!(response.message, "fresh");
        }
        other => panic!("unexpected {:?}", other),
    }
}

#[test]
fn provider_error_is_not_stored() {
    let (s, a) = ai_flow_step(AiFlowState::Calling, AiFlowEvent::ProviderReplied(Err(AppError::Internal("down".into()))));
    assert!(matches!(s, AiFlowState::Done));
    assert!(matches!(a, AiFlowAction::Reply(Err(AppError::Internal(_)))));
    let (s, a) = ai_flow_step(AiFlowState::Done, AiFlowEvent::CacheMiss);
    assert!(matches!(s, AiFlowState::Done));
    assert!(matches!(a, AiFlowAction::Ignore));
}

#[test]
fn department_from_assistant() {
    assert_eq!(ai_department_code("Phòng Kỹ Thuật"), "phòng_kỹ_thuật");
    assert_eq!(ai_department_path(Some("company.hanoi"), "Sales Team"), "company.hanoi.sales_team");
    assert_eq!(ai_department_path(None, "Sales Team"), "sales_team");
    assert_eq!(ai_parent_id(&None), Ok(None));
    assert_eq!(ai_parent_id(&Some("67e55044-10b1-426f-9247-bb680e5fe0c8".into())), Ok(Some(0x67e55044_10b1_426f_9247_bb680e5fe0c8)));
    assert_eq!(ai_parent_id(&Some("abc".into())), Err(AppError::BadRequest("Invalid parent ID".into())));
    assert_eq!(ai_department_created_message("Sales"), "✅ Đã tạo phòng ban: Sales");
}

#[test]
fn only_department_creation_is_carried_out() {
    let create = Some(AIAction::CreateDepartment { name: "Phòng Kỹ Thuật".into(), parent_id: None });
    let plan = ai_action_plan(&create).unwrap().unwrap();
    assert_eq!(plan.parent_id, None);
    assert_eq!(plan.name, "Phòng Kỹ Thuật");
    assert_eq!(plan.code, "phòng_kỹ_thuật");
    let child = Some(AIAction::CreateDepartment {
        name: "Sales".into(),
        parent_id: Some("00000000-0000-0000-0000-00000000000a".into()),
    });
    assert_eq!(ai_action_plan(&child).unwrap().unwrap().parent_id, Some(10));
    let bad = Some(AIAction::CreateDepartment { name: "Sales".into(), parent_id: Some("x".into()) });
    assert_eq!(ai_action_plan(&bad).unwrap_err(), AppError::BadRequest("Invalid parent ID".into()));
    assert!(ai_action_plan(&Some(AIAction::Navigate { path: "/".into() })).unwrap().is_none());
    assert!(ai_action_plan(&Some(AIAction::AssignRole { user_email: "a@b".into(), role_code: "x".into() }))
        .unwrap()
        .is_none());
    assert!(ai_action_plan(&None).unwrap().is_none());
}
