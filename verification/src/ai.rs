//! The AI command assistant: its request and response models, the requests
//! sent to each model provider, reading their replies, and the cached
//! command flow.

use vstd::prelude::*;
use crate::errors::{AppError, AppErrorView};
use crate::json::{Json, spec_field, spec_element, spec_as_str, deref_opt, has_keys, member_at, is_text_member};
use crate::text::{chars_of, substring, push_char};

verus! {

/// A command typed by the user.
#[derive(Debug)]
pub struct AICommandRequest {
    pub prompt: String,
}

/// What the assistant answers: a message and, possibly, an action to run.
#[derive(Debug)]
pub struct AICommandResponse {
    pub message: String,
    pub action: Option<AIAction>,
}

/// An action that the assistant asks the system to run.
#[derive(Debug)]
pub enum AIAction {
    CreateDepartment { name: String, parent_id: Option<String> },
    AssignRole { user_email: String, role_code: String },
    Navigate { path: String },
}

/// Request body of the Gemini `generateContent` call.
#[derive(Debug)]
pub struct GeminiRequest {
    pub contents: Vec<GeminiContent>,
    pub system_instruction: Option<GeminiSystemInstruction>,
}

#[derive(Debug)]
pub struct GeminiSystemInstruction {
    pub parts: Vec<GeminiPart>,
}

#[derive(Debug)]
pub struct GeminiContent {
    pub role: String,
    pub parts: Vec<GeminiPart>,
}

#[derive(Debug)]
pub struct GeminiPart {
    pub text: String,
}

/// Reply body of the Gemini `generateContent` call.
#[derive(Debug)]
pub struct GeminiResponse {
    pub candidates: Vec<GeminiCandidate>,
}

#[derive(Debug)]
pub struct GeminiCandidate {
    pub content: GeminiCandidateContent,
}

#[derive(Debug)]
pub struct GeminiCandidateContent {
    pub parts: Vec<GeminiCandidatePart>,
}

#[derive(Debug)]
pub struct GeminiCandidatePart {
    pub text: String,
}

/// Position of the first occurrence of `c` in `s`, or -1.
pub open spec fn first_index_of(s: Seq<char>, c: char) -> int
    decreases s.len(),
{
    if s.len() == 0 {
        -1
    } else if s[0] == c {
        0
    } else {
        let r = first_index_of(s.drop_first(), c);
        if r < 0 {
            -1
        } else {
            r + 1
        }
    }
}

/// Position of the last occurrence of `c` in `s`, or -1.
pub open spec fn last_index_of(s: Seq<char>, c: char) -> int
    decreases s.len(),
{
    if s.len() == 0 {
        -1
    } else if s.last() == c {
        s.len() - 1
    } else {
        last_index_of(s.drop_last(), c)
    }
}

/// The reply text can be cut at its braces: cutting fails only when the last
/// `}` stands more than one character before the first `{`.
pub open spec fn json_slice_defined(s: Seq<char>) -> bool {
    let a = first_index_of(s, '{');
    let b = last_index_of(s, '}');
    !(a >= 0 && b >= 0 && b + 1 < a)
}

/// The part of a model's reply that should hold the JSON object: from the
/// first `{` to the last `}`, both included; the whole reply when either is missing.
pub open spec fn json_slice(s: Seq<char>) -> Seq<char> {
    let a = first_index_of(s, '{');
    let b = last_index_of(s, '}');
    if a >= 0 && b >= 0 {
        s.subrange(a, b + 1)
    } else {
        s
    }
}

proof fn lemma_first_index_of(s: Seq<char>, c: char, i: int)
    requires
        0 <= i <= s.len(),
        forall|k: int| 0 <= k < i ==> s[k] != c,
    ensures
        i < s.len() && s[i] == c ==> first_index_of(s, c) == i,
        i == s.len() ==> first_index_of(s, c) == -1,
    decreases i,
{
    if i > 0 {
        lemma_first_index_of(s.drop_first(), c, i - 1);
    }
}

proof fn lemma_last_index_of(s: Seq<char>, c: char, j: int)
    requires
        0 <= j <= s.len(),
        forall|k: int| j <= k < s.len() ==> s[k] != c,
    ensures
        j > 0 && s[j - 1] == c ==> last_index_of(s, c) == j - 1,
        j == 0 ==> last_index_of(s, c) == -1,
    decreases s.len(),
{
    if s.len() > 0 && j < s.len() {
        lemma_last_index_of(s.drop_last(), c, j);
    } else if s.len() > 0 && j == s.len() && s[j - 1] != c {
        lemma_last_index_of(s.drop_last(), c, j - 1);
    }
}

/// The mathematical form of a found position.
pub open spec fn index_view(r: Option<usize>) -> int {
    match r {
        Some(i) => i as int,
        None => -1,
    }
}

/// Position of the first occurrence of a character.
pub fn find_char(s: &[char], c: char) -> (r: Option<usize>)
    ensures
        index_view(r) == first_index_of(s@, c),
{
    let mut i: usize = 0;
    while i < s.len()
        invariant
            i <= s@.len(),
            forall|k: int| 0 <= k < i ==> s@[k] != c,
        decreases s@.len() - i,
    {
        if s[i] == c {
            proof {
                lemma_first_index_of(s@, c, i as int);
            }
            return Some(i);
        }
        i = i + 1;
    }
    proof {
        lemma_first_index_of(s@, c, i as int);
    }
    None
}

/// Position of the last occurrence of a character.
pub fn rfind_char(s: &[char], c: char) -> (r: Option<usize>)
    ensures
        index_view(r) == last_index_of(s@, c),
{
    let mut j: usize = s.len();
    while j > 0
        invariant
            j <= s@.len(),
            forall|k: int| j <= k < s@.len() ==> s@[k] != c,
        decreases j,
    {
        if s[j - 1] == c {
            proof {
                lemma_last_index_of(s@, c, j as int);
            }
            return Some(j - 1);
        }
        j = j - 1;
    }
    proof {
        lemma_last_index_of(s@, c, 0);
    }
    None
}

proof fn lemma_index_bounds(s: Seq<char>, c: char)
    ensures
        -1 <= first_index_of(s, c) < s.len(),
        first_index_of(s, c) >= 0 ==> s[first_index_of(s, c)] == c,
        -1 <= last_index_of(s, c) < s.len(),
    decreases s.len(),
{
    if s.len() > 0 {
        lemma_index_bounds(s.drop_first(), c);
        lemma_index_bounds(s.drop_last(), c);
    }
}

/// Cuts a model's reply down to the JSON object it holds (see [`json_slice`]).
pub fn extract_json_text(text: &str) -> (r: String)
    requires
        json_slice_defined(text@),
    ensures
        r@ == json_slice(text@),
{
    let cs = chars_of(text);
    let a = find_char(cs.as_slice(), '{');
    let b = rfind_char(cs.as_slice(), '}');
    proof {
        lemma_index_bounds(text@, '{');
        lemma_index_bounds(text@, '}');
    }
    if a.is_some() && b.is_some() {
        let n = cs.len();
        assert(b.unwrap() < n);
        substring(cs.as_slice(), a.unwrap(), b.unwrap() + 1)
    } else {
        assert(cs@.subrange(0, cs@.len() as int) =~= cs@);
        substring(cs.as_slice(), 0, cs.len())
    }
}

/// Instructions sent to Gemini and Ollama ahead of the user's command.
pub const BRAIN_PROMPT: &'static str = r#"
            You are the "Brain" of an AI-Native ERP System. 
            Your goal is to understand user commands and convert them into system actions.
            
            Return ONLY a valid JSON object in the following format:
            {
                "message": "A friendly confirmation message in Vietnamese clearly explaining what was understood and done.",
                "action": {
                    "type": "create_department",
                    "payload": { "name": "Department Name", "parent_id": null }
                }
            }
            
            Actions available (all fields MUST be inside "payload"):
            - create_department: "action": { "type": "create_department", "payload": { "name": string, "parent_id": string | null } }
            - assign_role: "action": { "type": "assign_role", "payload": { "user_email": string, "role_code": string } }
            - navigate: "action": { "type": "navigate", "payload": { "path": string } }
            
            Valid paths for navigation:
            - "Tổng quan": "/"
            - "Sơ đồ tổ chức" or "Phòng ban": "/iam/org"
            - "Phân quyền" or "Roles": "/iam/roles"
            - "Duyệt yêu cầu": "/iam/approvals"
            - "Nhân sự" or "Nhân viên": "/employees"
            - "Audit Log" or "Nhật ký": "/audit"

            If no specific action is identified, set "action" to null.
            If the prompt is just a question, answer it in "message" and set "action" to null.
            Always reply in Vietnamese for the "message".
        "#;

/// Instructions sent to OpenAI ahead of the user's command.
pub const OPENAI_PROMPT: &'static str = r#"
            You are the "Brain" of an AI-Native ERP System. 
            Return ONLY a valid JSON object in the following format:
            {
                "message": "Phản hồi bằng tiếng Việt",
                "action": { "type": "navigate", "payload": { "path": "/" } }
            }
            Reply in Vietnamese.
        "#;

/// Base of the Gemini `generateContent` URL; the API key follows it.
pub const GEMINI_ENDPOINT: &'static str = "https://generativelanguage.googleapis.com/v1beta/models/gemini-2.5-flash:generateContent?key=";

/// Time a cached answer stays valid: 24 hours.
pub const AI_CACHE_TTL_SECS: u64 = 86400;

/// The model provider that answers commands.
#[derive(Debug, Clone, Copy, PartialEq, Eq, Structural)]
pub enum AIProviderKind {
    Gemini,
    Ollama,
    OpenAI,
}

/// The provider named by the `AI_PROVIDER` setting, if it is a known one.
pub fn provider_kind(name: &str) -> (r: Option<AIProviderKind>)
    ensures
        r == (if name@ == "gemini"@ {
            Some(AIProviderKind::Gemini)
        } else if name@ == "ollama"@ {
            Some(AIProviderKind::Ollama)
        } else if name@ == "openai"@ {
            Some(AIProviderKind::OpenAI)
        } else {
            None
        }),
{
    if crate::text::str_eq(name, "gemini") {
        Some(AIProviderKind::Gemini)
    } else if crate::text::str_eq(name, "ollama") {
        Some(AIProviderKind::Ollama)
    } else if crate::text::str_eq(name, "openai") {
        Some(AIProviderKind::OpenAI)
    } else {
        None
    }
}

/// A string made of two pieces.
pub fn concat2(a: &str, b: &str) -> (r: String)
    ensures
        r@ == a@ + b@,
{
    let mut r = String::from_str(a);
    r.append(b);
    r
}

/// The Gemini URL for an API key.
pub fn gemini_url(api_key: &str) -> (r: String)
    ensures
        r@ == GEMINI_ENDPOINT@ + api_key@,
{
    concat2(GEMINI_ENDPOINT, api_key)
}

/// The Gemini request for a command: the instructions as system
/// instruction and the command as the single user turn.
pub fn gemini_request(prompt: &str) -> (r: GeminiRequest)
    ensures
        r.contents@.len() == 1,
        r.contents@[0].role@ == "user"@,
        r.contents@[0].parts@.len() == 1,
        r.contents@[0].parts@[0].text@ == prompt@,
        r.system_instruction matches Some(si) && si.parts@.len() == 1 && si.parts@[0].text@
            == BRAIN_PROMPT@,
{
    let mut sys_parts: Vec<GeminiPart> = Vec::new();
    sys_parts.push(GeminiPart { text: String::from_str(BRAIN_PROMPT) });
    let mut user_parts: Vec<GeminiPart> = Vec::new();
    user_parts.push(GeminiPart { text: String::from_str(prompt) });
    let mut contents: Vec<GeminiContent> = Vec::new();
    contents.push(GeminiContent { role: String::from_str("user"), parts: user_parts });
    GeminiRequest {
        contents,
        system_instruction: Some(GeminiSystemInstruction { parts: sys_parts }),
    }
}

/// Whether an HTTP status is a success (2xx).
pub fn is_success_status(status: u16) -> (r: bool)
    ensures
        r == (200 <= status <= 299),
{
    200 <= status && status <= 299
}

/// The text of the first part of Gemini's first candidate, if there is one.
pub open spec fn gemini_first_text(resp: GeminiResponse) -> Option<Seq<char>> {
    if resp.candidates@.len() > 0 && resp.candidates@[0].content.parts@.len() > 0 {
        Some(resp.candidates@[0].content.parts@[0].text@)
    } else {
        None
    }
}

/// Reads the answer out of a Gemini reply.
pub fn gemini_reply(resp: &GeminiResponse) -> (r: Result<String, AppError>)
    ensures
        match gemini_first_text(*resp) {
            Some(t) => r matches Ok(s) && s@ == t,
            None => r matches Err(e) && e@ == AppErrorView::Internal("Empty response from AI"@),
        },
{
    if resp.candidates.len() > 0 && resp.candidates[0].content.parts.len() > 0 {
        Ok(resp.candidates[0].content.parts[0].text.clone())
    } else {
        Err(AppError::Internal(String::from_str("Empty response from AI")))
    }
}

/// Looks a key up in an optional value.
pub open spec fn field_of(v: Option<Json>, key: Seq<char>) -> Option<Json> {
    match v {
        Some(x) => spec_field(x, key),
        None => None,
    }
}

/// Looks a position up in an optional value.
pub open spec fn element_of(v: Option<Json>, i: int) -> Option<Json> {
    match v {
        Some(x) => spec_element(x, i),
        None => None,
    }
}

/// The URL of Ollama's chat endpoint.
pub fn ollama_url(base_url: &str) -> (r: String)
    ensures
        r@ == base_url@ + "/api/chat"@,
{
    concat2(base_url, "/api/chat")
}

/// A chat message: exactly the members `role` and `content`, both texts.
pub open spec fn is_chat_message(v: Json, role: Seq<char>, content: Seq<char>) -> bool {
    &&& has_keys(v, seq!["role"@, "content"@])
    &&& is_text_member(member_at(v, 0), "role"@, role)
    &&& is_text_member(member_at(v, 1), "content"@, content)
}

/// The chat messages of a command: the instructions as the system message,
/// then the command as the user message, and nothing else.
pub open spec fn is_chat_messages(v: Json, system_prompt: Seq<char>, prompt: Seq<char>) -> bool {
    v matches Json::Array(items) && items@.len() == 2 && is_chat_message(items@[0], "system"@, system_prompt)
        && is_chat_message(items@[1], "user"@, prompt)
}

/// A chat message `{"role": role, "content": content}`.
fn chat_message(role: &str, content: &str) -> (r: Json)
    ensures
        is_chat_message(r, role@, content@),
        spec_as_str(spec_field(r, "role"@)) == Some(role@),
        spec_as_str(spec_field(r, "content"@)) == Some(content@),
{
    let mut m: Vec<(String, Json)> = Vec::new();
    m.push((String::from_str("role"), Json::text(role)));
    m.push((String::from_str("content"), Json::text(content)));
    proof {
        reveal_strlit("role");
        reveal_strlit("content");
        assert("role"@ != "content"@) by { assert("role"@.len() != "content"@.len()); }
        assert(crate::json::find_member(m@, "role"@, 0) == Some(m@[0].1));
        assert(crate::json::find_member(m@, "content"@, 1) == Some(m@[1].1));
        assert(crate::json::find_member(m@, "content"@, 0) == Some(m@[1].1));
    }
    Json::Object(m)
}

/// The two chat messages of a command: the instructions, then the command.
fn chat_messages(system_prompt: &str, prompt: &str) -> (r: Json)
    ensures
        is_chat_messages(r, system_prompt@, prompt@),
        r matches Json::Array(items) && items@.len() == 2 && spec_as_str(
            spec_field(items@[0], "role"@),
        ) == Some("system"@) && spec_as_str(spec_field(items@[0], "content"@)) == Some(
            system_prompt@,
        ) && spec_as_str(spec_field(items@[1], "role"@)) == Some("user"@) && spec_as_str(
            spec_field(items@[1], "content"@),
        ) == Some(prompt@),
{
    let a = chat_message("system", system_prompt);
    let b = chat_message("user", prompt);
    let mut items: Vec<Json> = Vec::new();
    items.push(a);
    items.push(b);
    Json::Array(items)
}

/// The Ollama chat request for a command (no streaming, JSON output).
pub fn ollama_request(model: &str, prompt: &str) -> (r: Json)
    ensures
        has_keys(r, seq!["model"@, "messages"@, "stream"@, "format"@]),
        is_text_member(member_at(r, 0), "model"@, model@),
        is_chat_messages(member_at(r, 1).1, BRAIN_PROMPT@, prompt@),
        member_at(r, 2).1 == Json::Bool(false),
        is_text_member(member_at(r, 3), "format"@, "json"@),
        spec_as_str(spec_field(r, "model"@)) == Some(model@),
        spec_field(r, "messages"@) matches Some(msgs) && msgs matches Json::Array(items)
            && items@.len() == 2 && spec_as_str(spec_field(items@[0], "content"@)) == Some(
            BRAIN_PROMPT@,
        ) && spec_as_str(spec_field(items@[1], "content"@)) == Some(prompt@),
        spec_field(r, "stream"@) == Some(Json::Bool(false)),
        spec_as_str(spec_field(r, "format"@)) == Some("json"@),
{
    let mut m: Vec<(String, Json)> = Vec::new();
    m.push((String::from_str("model"), Json::text(model)));
    m.push((String::from_str("messages"), chat_messages(BRAIN_PROMPT, prompt)));
    m.push((String::from_str("stream"), Json::Bool(false)));
    m.push((String::from_str("format"), Json::text("json")));
    proof {
        reveal_strlit("model");
        reveal_strlit("messages");
        reveal_strlit("stream");
        reveal_strlit("format");
        assert("model"@ != "messages"@) by { assert("model"@.len() != "messages"@.len()); }
        assert("model"@ != "stream"@) by { assert("model"@.len() != "stream"@.len()); }
        assert("model"@ != "format"@) by { assert("model"@.len() != "format"@.len()); }
        assert("messages"@ != "stream"@) by { assert("messages"@.len() != "stream"@.len()); }
        assert("messages"@ != "format"@) by { assert("messages"@.len() != "format"@.len()); }
        assert("stream"@ != "format"@) by { assert("stream"@[0] != "format"@[0]); }
        assert(crate::json::find_member(m@, "model"@, 0) == Some(m@[0].1));
        assert(crate::json::find_member(m@, "messages"@, 1) == Some(m@[1].1));
        assert(crate::json::find_member(m@, "messages"@, 0) == Some(m@[1].1));
        assert(crate::json::find_member(m@, "stream"@, 2) == Some(m@[2].1));
        assert(crate::json::find_member(m@, "stream"@, 1) == Some(m@[2].1));
        assert(crate::json::find_member(m@, "stream"@, 0) == Some(m@[2].1));
        assert(crate::json::find_member(m@, "format"@, 3) == Some(m@[3].1));
        assert(crate::json::find_member(m@, "format"@, 2) == Some(m@[3].1));
        assert(crate::json::find_member(m@, "format"@, 1) == Some(m@[3].1));
        assert(crate::json::find_member(m@, "format"@, 0) == Some(m@[3].1));
    }
    Json::Object(m)
}

/// The text of `message.content` in an Ollama reply.
pub open spec fn ollama_reply_text(body: Json) -> Option<Seq<char>> {
    spec_as_str(field_of(spec_field(body, "message"@), "content"@))
}

/// Reads the answer out of an Ollama reply.
pub fn ollama_reply(body: &Json) -> (r: Result<String, AppError>)
    ensures
        match ollama_reply_text(*body) {
            Some(t) => r matches Ok(s) && s@ == t,
            None => r matches Err(e) && e@ == AppErrorView::Internal("Empty response from Ollama"@),
        },
{
    let content = match body.field("message") {
        Some(m) => m.field("content"),
        None => None,
    };
    match crate::json::as_str(content) {
        Some(s) => Ok(s),
        None => Err(AppError::Internal(String::from_str("Empty response from Ollama"))),
    }
}

/// The URL of OpenAI's chat completions endpoint.
pub fn openai_url(base_url: &str) -> (r: String)
    ensures
        r@ == base_url@ + "/chat/completions"@,
{
    concat2(base_url, "/chat/completions")
}

/// The `Authorization` header value for an API key.
pub fn bearer_header(api_key: &str) -> (r: String)
    ensures
        r@ == "Bearer "@ + api_key@,
{
    concat2("Bearer ", api_key)
}

/// The OpenAI chat completion request for a command (JSON object output).
pub fn openai_request(model: &str, prompt: &str) -> (r: Json)
    ensures
        has_keys(r, seq!["model"@, "messages"@, "response_format"@]),
        is_text_member(member_at(r, 0), "model"@, model@),
        is_chat_messages(member_at(r, 1).1, OPENAI_PROMPT@, prompt@),
        has_keys(member_at(r, 2).1, seq!["type"@]),
        is_text_member(member_at(member_at(r, 2).1, 0), "type"@, "json_object"@),
        spec_as_str(spec_field(r, "model"@)) == Some(model@),
        spec_field(r, "messages"@) matches Some(msgs) && msgs matches Json::Array(items)
            && items@.len() == 2 && spec_as_str(spec_field(items@[0], "content"@)) == Some(
            OPENAI_PROMPT@,
        ) && spec_as_str(spec_field(items@[1], "content"@)) == Some(prompt@),
        spec_as_str(field_of(spec_field(r, "response_format"@), "type"@)) == Some(
            "json_object"@,
        ),
{
    let mut fmt: Vec<(String, Json)> = Vec::new();
    fmt.push((String::from_str("type"), Json::text("json_object")));
    let mut m: Vec<(String, Json)> = Vec::new();
    m.push((String::from_str("model"), Json::text(model)));
    m.push((String::from_str("messages"), chat_messages(OPENAI_PROMPT, prompt)));
    m.push((String::from_str("response_format"), Json::Object(fmt)));
    proof {
        reveal_strlit("model");
        reveal_strlit("messages");
        reveal_strlit("response_format");
        reveal_strlit("type");
        assert("model"@ != "messages"@) by { assert("model"@.len() != "messages"@.len()); }
        assert("model"@ != "response_format"@) by { assert("model"@.len() != "response_format"@.len()); }
        assert("messages"@ != "response_format"@) by { assert("messages"@.len() != "response_format"@.len()); }
        assert(crate::json::find_member(fmt@, "type"@, 0) == Some(fmt@[0].1));
        assert(crate::json::find_member(m@, "model"@, 0) == Some(m@[0].1));
        assert(crate::json::find_member(m@, "messages"@, 1) == Some(m@[1].1));
        assert(crate::json::find_member(m@, "messages"@, 0) == Some(m@[1].1));
        assert(crate::json::find_member(m@, "response_format"@, 2) == Some(m@[2].1));
        assert(crate::json::find_member(m@, "response_format"@, 1) == Some(m@[2].1));
        assert(crate::json::find_member(m@, "response_format"@, 0) == Some(m@[2].1));
    }
    Json::Object(m)
}

/// The text of `choices[0].message.content` in an OpenAI reply.
pub open spec fn openai_reply_text(body: Json) -> Option<Seq<char>> {
    spec_as_str(
        field_of(field_of(element_of(spec_field(body, "choices"@), 0), "message"@), "content"@),
    )
}

/// Reads the answer out of an OpenAI reply.
pub fn openai_reply(body: &Json) -> (r: Result<String, AppError>)
    ensures
        match openai_reply_text(*body) {
            Some(t) => r matches Ok(s) && s@ == t,
            None => r matches Err(e) && e@ == AppErrorView::Internal("Empty response from OpenAI"@),
        },
{
    let first = match body.field("choices") {
        Some(c) => c.element(0),
        None => None,
    };
    let message = match first {
        Some(f) => f.field("message"),
        None => None,
    };
    let content = match message {
        Some(m) => m.field("content"),
        None => None,
    };
    match crate::json::as_str(content) {
        Some(s) => Ok(s),
        None => Err(AppError::Internal(String::from_str("Empty response from OpenAI"))),
    }
}

/// The cache key of a command: the command trimmed, then lower-cased.
pub open spec fn spec_ai_cache_key(prompt: Seq<char>) -> Seq<char> {
    crate::text::spec_lowercase(crate::text::spec_trim(prompt))
}

/// The cache key of a command, so that commands differing only in case or
/// surrounding whitespace share an answer.
pub fn ai_cache_key(prompt: &str) -> (r: String)
    ensures
        r@ == spec_ai_cache_key(prompt@),
{
    let t = crate::text::trim(prompt);
    crate::text::to_lowercase(t.as_str())
}

/// Where the command flow stands.
#[derive(Debug)]
pub enum AiFlowState {
    /// Nothing done yet.
    Start,
    /// Waiting for the cache lookup.
    LookingUp,
    /// Waiting for the model provider.
    Calling,
    /// The answer has been given.
    Done,
}

/// What happened outside the flow.
#[derive(Debug)]
pub enum AiFlowEvent {
    /// The flow is started.
    Begin,
    /// The cache held an answer that decodes as a response.
    CacheHit(AICommandResponse),
    /// The cache held no usable answer (absent, undecodable, or the lookup failed).
    CacheMiss,
    /// The model provider answered.
    ProviderReplied(Result<AICommandResponse, AppError>),
}

/// What the flow asks to be done next.
#[derive(Debug)]
pub enum AiFlowAction {
    /// Look the command's cache key up.
    LookupCache,
    /// Ask the model provider.
    CallProvider,
    /// Store the response under the command's cache key for `ttl_secs`
    /// seconds, then answer with it; a failed store does not change the answer.
    StoreAndReply { ttl_secs: u64, response: AICommandResponse },
    /// Answer.
    Reply(Result<AICommandResponse, AppError>),
    /// The event does not belong to this state; nothing to do.
    Ignore,
}

/// The step of the cached command flow: a cached answer is returned as it
/// is and the provider is not asked; otherwise the provider's answer is
/// stored for a day and returned, and its error is returned without storing.
pub open spec fn ai_flow_spec(state: AiFlowState, event: AiFlowEvent) -> (AiFlowState, AiFlowAction) {
    match (state, event) {
        (AiFlowState::Start, AiFlowEvent::Begin) => (AiFlowState::LookingUp, AiFlowAction::LookupCache),
        (AiFlowState::LookingUp, AiFlowEvent::CacheHit(r)) => (AiFlowState::Done, AiFlowAction::Reply(Ok(r))),
        (AiFlowState::LookingUp, AiFlowEvent::CacheMiss) => (AiFlowState::Calling, AiFlowAction::CallProvider),
        (AiFlowState::Calling, AiFlowEvent::ProviderReplied(Ok(r))) => (
            AiFlowState::Done,
            AiFlowAction::StoreAndReply { ttl_secs: AI_CACHE_TTL_SECS, response: r },
        ),
        (AiFlowState::Calling, AiFlowEvent::ProviderReplied(Err(e))) => (
            AiFlowState::Done,
            AiFlowAction::Reply(Err(e)),
        ),
        (s, _) => (s, AiFlowAction::Ignore),
    }
}

/// Advances the cached command flow by one event.
pub fn ai_flow_step(state: AiFlowState, event: AiFlowEvent) -> (r: (AiFlowState, AiFlowAction))
    ensures
        r == ai_flow_spec(state, event),
{
    match (state, event) {
        (AiFlowState::Start, AiFlowEvent::Begin) => (AiFlowState::LookingUp, AiFlowAction::LookupCache),
        (AiFlowState::LookingUp, AiFlowEvent::CacheHit(r)) => (AiFlowState::Done, AiFlowAction::Reply(Ok(r))),
        (AiFlowState::LookingUp, AiFlowEvent::CacheMiss) => (AiFlowState::Calling, AiFlowAction::CallProvider),
        (AiFlowState::Calling, AiFlowEvent::ProviderReplied(Ok(r))) => (
            AiFlowState::Done,
            AiFlowAction::StoreAndReply { ttl_secs: AI_CACHE_TTL_SECS, response: r },
        ),
        (AiFlowState::Calling, AiFlowEvent::ProviderReplied(Err(e))) => (
            AiFlowState::Done,
            AiFlowAction::Reply(Err(e)),
        ),
        (s, _) => (s, AiFlowAction::Ignore),
    }
}

/// The code of a department created by the assistant: its name lower-cased,
/// spaces turned into underscores.
pub open spec fn spec_ai_department_code(name: Seq<char>) -> Seq<char> {
    crate::text::spec_replace_char(crate::text::spec_lowercase(name), ' ', '_')
}

/// The code of a department created by the assistant.
pub fn ai_department_code(name: &str) -> (r: String)
    ensures
        r@ == spec_ai_department_code(name@),
{
    let lower = crate::text::to_lowercase(name);
    crate::text::replace_char(lower.as_str(), ' ', '_')
}

/// The ltree path of a department created by the assistant: its code under
/// the parent's path, or its code alone at the root.
pub fn ai_department_path(parent_path: Option<&str>, name: &str) -> (r: String)
    ensures
        r@ == match parent_path {
            Some(pp) => pp@ + "."@ + spec_ai_department_code(name@),
            None => spec_ai_department_code(name@),
        },
{
    let code = ai_department_code(name);
    match parent_path {
        Some(pp) => {
            let mut r = concat2(pp, ".");
            r.append(code.as_str());
            r
        },
        None => code,
    }
}

/// The parent of a department created by the assistant, read from the id it
/// gave: no id means a root; an id that is not a UUID is refused.
pub fn ai_parent_id(parent_id: &Option<String>) -> (r: Result<Option<u128>, AppError>)
    ensures
        match parent_id {
            None => r == Ok::<Option<u128>, AppError>(None),
            Some(s) => match crate::ids::spec_uuid_parse(s@) {
                Some(id) => r == Ok::<Option<u128>, AppError>(Some(id)),
                None => (r matches Err(e) && e@ == AppErrorView::BadRequest("Invalid parent ID"@)),
            },
        },
{
    match parent_id {
        None => Ok(None),
        Some(s) => match crate::ids::parse_uuid(s.as_str()) {
            Some(id) => Ok(Some(id)),
            None => Err(AppError::BadRequest(String::from_str("Invalid parent ID"))),
        },
    }
}

/// The parent read from the id the assistant gave (see [`ai_parent_id`]).
pub open spec fn spec_ai_parent(parent_id: Option<String>) -> Result<Option<u128>, AppErrorView> {
    match parent_id {
        None => Ok(None),
        Some(s) => match crate::ids::spec_uuid_parse(s@) {
            Some(id) => Ok(Some(id)),
            None => Err(AppErrorView::BadRequest("Invalid parent ID"@)),
        },
    }
}

/// A department the assistant asks to create: its parent (none for a root),
/// its name and the code derived from the name.
#[derive(Debug)]
pub struct AiDepartmentRequest {
    pub parent_id: Option<u128>,
    pub name: String,
    pub code: String,
}

/// What the server itself carries out of the assistant's action: only a
/// department creation writes anything (with its parent id checked);
/// assigning a role and navigating are left to the client.
pub fn ai_action_plan(action: &Option<AIAction>) -> (r: Result<Option<AiDepartmentRequest>, AppError>)
    ensures
        match action {
            Some(AIAction::CreateDepartment { name, parent_id }) => match spec_ai_parent(*parent_id) {
                Ok(p) => (r matches Ok(Some(d)) && d.parent_id == p && d.name@ == name@ && d.code@
                    == spec_ai_department_code(name@)),
                Err(e) => (r matches Err(x) && x@ == e),
            },
            _ => (r matches Ok(None)),
        },
{
    match action {
        Some(AIAction::CreateDepartment { name, parent_id }) => {
            let parent = ai_parent_id(parent_id)?;
            Ok(
                Some(
                    AiDepartmentRequest {
                        parent_id: parent,
                        name: name.clone(),
                        code: ai_department_code(name.as_str()),
                    },
                ),
            )
        },
        _ => Ok(None),
    }
}

/// The assistant's message once it has created a department.
pub fn ai_department_created_message(name: &str) -> (r: String)
    ensures
        r@ == "\u{2705} Đã tạo phòng ban: "@ + name@,
{
    concat2("\u{2705} Đã tạo phòng ban: ", name)
}

/// The Redis key under which an answer is cached: `ai_cache:` then the command's cache key.
pub fn redis_cache_key(key: &str) -> (r: String)
    ensures
        r@ == "ai_cache:"@ + key@,
{
    concat2("ai_cache:", key)
}

/// A cached answer is returned as it is, without asking the provider.
pub proof fn law_cache_hit_skips_provider(r: AICommandResponse)
    ensures
        ai_flow_spec(AiFlowState::LookingUp, AiFlowEvent::CacheHit(r)) == (
            AiFlowState::Done,
            AiFlowAction::Reply(Ok(r)),
        ),
{
}

/// A provider's error is returned and never stored; a provider's answer is
/// stored for 24 hours and returned unchanged.
pub proof fn law_only_answers_are_cached(e: AppError, r: AICommandResponse)
    ensures
        ai_flow_spec(AiFlowState::Calling, AiFlowEvent::ProviderReplied(Err(e))) == (
            AiFlowState::Done,
            AiFlowAction::Reply(Err(e)),
        ),
        ai_flow_spec(AiFlowState::Calling, AiFlowEvent::ProviderReplied(Ok(r))) == (
            AiFlowState::Done,
            AiFlowAction::StoreAndReply { ttl_secs: 86400, response: r },
        ),
{
}

/// A command with whitespace around it shares the cache key of the bare command.
pub proof fn law_cache_key_ignores_surrounding_space(w1: Seq<char>, command: Seq<char>, w2: Seq<char>)
    requires
        crate::text::all_whitespace(w1),
        crate::text::all_whitespace(w2),
    ensures
        spec_ai_cache_key(w1 + command + w2) == spec_ai_cache_key(command),
{
    crate::text::lemma_trim_surrounded(w1, command, w2);
}

/// The cache key of a command is its whole trimmed text, lower-cased: it is
/// exactly as long as the lower-cased trimmed command, and two commands whose
/// lower-cased trimmed texts differ never share a key (so one command is
/// never answered with another's cached answer).
pub proof fn law_cache_key_is_whole_command(a: Seq<char>, b: Seq<char>)
    ensures
        spec_ai_cache_key(a).len() == crate::text::spec_lowercase(crate::text::spec_trim(a)).len(),
        crate::text::spec_lowercase(crate::text::spec_trim(a)) != crate::text::spec_lowercase(
            crate::text::spec_trim(b),
        ) ==> spec_ai_cache_key(a) != spec_ai_cache_key(b),
        spec_ai_cache_key(a) == spec_ai_cache_key(b) <==> crate::text::spec_lowercase(
            crate::text::spec_trim(a),
        ) == crate::text::spec_lowercase(crate::text::spec_trim(b)),
{
}

} // verus!
