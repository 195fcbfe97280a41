//! The gateway's data: requests, responses and settings.

use vstd::prelude::*;

verus! {

broadcast use vstd::string::group_string_axioms;

/// The answer to a run of the agent.
#[derive(Debug, Clone)]
pub struct RunResponse {
    pub session_id: String,
    pub result: String,
    pub iterations: usize,
    pub tool_calls: usize,
}

/// What is known of a session.
#[derive(Debug, Clone)]
pub struct SessionInfo {
    pub session_id: String,
    pub message_count: usize,
    pub token_estimate: usize,
}

/// A tool definition sent for registration.
#[derive(Debug, Clone)]
pub struct RegisterToolRequest {
    pub name: String,
    pub description: String,
    pub parameters: serde_json::Value,
    pub enabled: bool,
}

/// Where the gateway listens.
#[derive(Debug, Clone)]
pub struct GatewayConfig {
    pub port: u16,
    pub host: String,
}

/// The port used when the settings give none.
pub fn default_port() -> (r: u16)
    ensures
        r == 4848,
{
    4848
}

/// The host used when the settings give none.
pub fn default_host() -> (r: String)
    ensures
        r@ == "0.0.0.0"@,
{
    "0.0.0.0".to_owned()
}

impl Default for GatewayConfig {
    fn default() -> (r: Self)
        ensures
            r.port == 4848,
            r.host@ == "0.0.0.0"@,
    {
        GatewayConfig { port: 4848, host: "0.0.0.0".to_owned() }
    }
}

/// The memory settings.
#[derive(Debug, Clone)]
pub struct MemoryConfig {
    pub working_window: usize,
    pub data_dir: String,
}

/// The working memory budget used when the settings give none.
pub fn default_working_window() -> (r: usize)
    ensures
        r == 64000,
{
    64000
}

/// The data directory used when the settings give none.
pub fn default_data_dir() -> (r: String)
    ensures
        r@ == "~/.pangu/data"@,
{
    "~/.pangu/data".to_owned()
}

impl Default for MemoryConfig {
    fn default() -> (r: Self)
        ensures
            r.working_window == 64000,
            r.data_dir@ == "~/.pangu/data"@,
    {
        MemoryConfig { working_window: 64000, data_dir: "~/.pangu/data".to_owned() }
    }
}

/// The maximum answer length used when the settings give none.
pub fn default_max_tokens() -> (r: u32)
    ensures
        r == 4096,
{
    4096
}

/// The model context window used when the settings give none.
pub fn default_context_window() -> (r: usize)
    ensures
        r == 128000,
{
    128000
}

} // verus!
