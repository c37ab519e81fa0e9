//! Settings read from the environment, and the defaults used when one is absent.

use vstd::prelude::*;

verus! {

/// Default model provider.
pub const DEFAULT_AI_PROVIDER: &'static str = "gemini";

/// Default Ollama model.
pub const DEFAULT_OLLAMA_MODEL: &'static str = "deepseek-r1:7b";

/// Default Ollama server.
pub const DEFAULT_OLLAMA_BASE_URL: &'static str = "http://localhost:11434";

/// Default OpenAI model.
pub const DEFAULT_OPENAI_MODEL: &'static str = "gpt-4o";

/// Default OpenAI endpoint.
pub const DEFAULT_OPENAI_BASE_URL: &'static str = "https://api.openai.com/v1";

/// Default Redis server.
pub const DEFAULT_REDIS_URL: &'static str = "redis://localhost:6379";

/// Development signing key for tokens, used when `JWT_SECRET` is not set.
pub const DEFAULT_JWT_SECRET: &'static str = "dev-secret-change-in-production";

/// Default listening host.
pub const DEFAULT_APP_HOST: &'static str = "0.0.0.0";

/// Default listening port.
pub const DEFAULT_APP_PORT: u16 = 3000;

/// A setting's value, or its default when it is not set.
pub fn setting_or(value: Option<String>, default: &str) -> (r: String)
    ensures
        r@ == match value {
            Some(v) => v@,
            None => default@,
        },
{
    match value {
        Some(v) => v,
        None => String::from_str(default),
    }
}

/// The listening port: the configured one when it is a valid port number, else the default.
pub fn port_or_default(parsed: Option<u16>) -> (r: u16)
    ensures
        r == match parsed {
            Some(p) => p,
            None => DEFAULT_APP_PORT,
        },
{
    match parsed {
        Some(p) => p,
        None => DEFAULT_APP_PORT,
    }
}

} // verus!
