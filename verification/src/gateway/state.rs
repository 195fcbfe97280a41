//! The gateway's rules on settings: which provider serves a configuration,
//! how the API key is shown, and how a tool is registered.

use vstd::prelude::*;
use vstd::utf8::{decode_utf8, encode_utf8, is_char_boundary};
use crate::gateway::models::RegisterToolRequest;
use crate::llm::openai::{context_window_of, OpenAiProvider, API_URL};
use crate::text::str_eq;
use crate::tools::registry::{after_insert, ToolDef, ToolRegistry};

verus! {

broadcast use vstd::string::group_string_axioms;

/// The number of UTF-8 bytes of `key`.
pub open spec fn key_bytes(key: Seq<char>) -> nat {
    encode_utf8(key).len()
}

/// Whether `key` can be shortened to its first and last four bytes: both cuts
/// fall between characters (its byte length being one memory can hold).
pub open spec fn key_cuts_ok(key: Seq<char>) -> bool {
    let b = encode_utf8(key);
    &&& b.len() <= usize::MAX
    &&& b.len() > 8 ==> is_char_boundary(b, 4) && is_char_boundary(b, b.len() - 4)
}

/// `key` shortened to its first and last four bytes, or `short` when it has at
/// most eight bytes.
pub open spec fn masked_key(key: Seq<char>, short: Seq<char>) -> Seq<char> {
    let b = encode_utf8(key);
    if b.len() <= 8 {
        short
    } else {
        decode_utf8(b.subrange(0, 4)) + "..."@ + decode_utf8(b.subrange(b.len() - 4, b.len() as int))
    }
}

/// `key` shortened for display: its first and last four bytes around `...`,
/// or `short` when it has at most eight bytes.
pub fn mask_key_with(key: &str, short: &str) -> (r: String)
    requires
        key_cuts_ok(key@),
    ensures
        r@ == masked_key(key@, short@),
{
    let n = key.len();
    if n <= 8 {
        return short.to_owned();
    }
    proof {
        vstd::utf8::encode_utf8_decode_utf8(key@);
    }
    let (head, _) = key.split_at(4);
    let (_, tail) = key.split_at(n - 4);
    proof {
        vstd::utf8::encode_utf8_decode_utf8(head@);
        vstd::utf8::encode_utf8_decode_utf8(tail@);
    }
    let mut r = String::new();
    r.append(head);
    r.append("...");
    r.append(tail);
    r
}

/// `key` shortened for display: `****` when it has at most eight bytes.
pub fn mask_key(key: &str) -> (r: String)
    requires
        key_cuts_ok(key@),
    ensures
        r@ == masked_key(key@, "****"@),
{
    mask_key_with(key, "****")
}

/// The API key as the configuration shows it: empty stays empty, any other
/// key is masked.
pub fn safe_api_key(key: &str) -> (r: String)
    requires
        key_cuts_ok(key@),
    ensures
        key@.len() == 0 ==> r@.len() == 0,
        key@.len() > 0 ==> r@ == masked_key(key@, "****"@),
{
    if key.is_empty() {
        String::new()
    } else {
        mask_key(key)
    }
}

/// The error for a provider the gateway cannot serve.
pub open spec fn unsupported_provider_message(provider: Seq<char>) -> Seq<char> {
    "不支持的 provider: "@ + provider
}

/// The providers the gateway serves: OpenAI, a custom OpenAI-compatible
/// endpoint, Anthropic and Ollama, all through their OpenAI-compatible
/// chat-completions API.
pub open spec fn known_provider(provider: Seq<char>) -> bool {
    provider == "openai"@ || provider == "custom"@ || provider == "anthropic"@ || provider == "ollama"@
}

/// The base address of a provider's OpenAI-compatible API, used when the
/// settings give none.
pub open spec fn default_base_url(provider: Seq<char>) -> Seq<char> {
    if provider == "anthropic"@ {
        ANTHROPIC_URL@
    } else if provider == "ollama"@ {
        OLLAMA_URL@
    } else {
        API_URL@
    }
}

/// Anthropic's OpenAI-compatible base address.
pub const ANTHROPIC_URL: &'static str = "https://api.anthropic.com/v1";

/// The base address of a local Ollama server's OpenAI-compatible API.
pub const OLLAMA_URL: &'static str = "http://localhost:11434/v1";

/// The base address used for `provider` when the settings give `base_url`:
/// that address, or the provider's own when it is empty.
pub open spec fn effective_base_url(provider: Seq<char>, base_url: Seq<char>) -> Seq<char> {
    if base_url.len() > 0 {
        base_url
    } else {
        default_base_url(provider)
    }
}

/// The provider serving a configuration: an OpenAI-compatible client for
/// `openai`, `custom`, `anthropic` and `ollama`, at the configured base
/// address or the provider's own; an error for any other name.
pub fn provider_for(provider: &str, model: &str, api_key: &str, base_url: &str) -> (r: Result<OpenAiProvider, String>)
    ensures
        known_provider(provider@) ==> (r matches Ok(p) && {
            &&& p.spec_model() == model@
            &&& p.spec_api_key() == api_key@
            &&& p.spec_base_url() == Some(effective_base_url(provider@, base_url@))
            &&& p.spec_context_window() == context_window_of(model@)
        }),
        !known_provider(provider@) ==> (r matches Err(e) && e@ == unsupported_provider_message(
            provider@,
        )),
{
    let anthropic = str_eq(provider, "anthropic");
    let ollama = str_eq(provider, "ollama");
    if str_eq(provider, "openai") || str_eq(provider, "custom") || anthropic || ollama {
        let base = if !base_url.is_empty() {
            base_url
        } else if anthropic {
            ANTHROPIC_URL
        } else if ollama {
            OLLAMA_URL
        } else {
            API_URL
        };
        Ok(OpenAiProvider::with_base_url(model, api_key, base))
    } else {
        let mut m = String::new();
        m.append("不支持的 provider: ");
        m.append(provider);
        Err(m)
    }
}

/// Registers the tool of a registration request, enabled (the request's own
/// `enabled` flag is not used).
pub fn register_tool(tools: &mut ToolRegistry, req: RegisterToolRequest) -> (r: Result<(), String>)
    ensures
        r is Ok,
        exists|d: ToolDef|
            {
                &&& #[trigger] d.name@ == req.name@
                &&& d.description@ == req.description@
                &&& d.parameters == req.parameters
                &&& d.enabled
                &&& final(tools).defs() == after_insert(old(tools).defs(), d)
            },
{
    tools.register_dynamic(req.name.as_str(), req.description.as_str(), req.parameters)
}

/// The gateway serves exactly the providers `openai`, `custom`, `anthropic`
/// and `ollama`. Without a configured base address, Anthropic is reached at
/// `https://api.anthropic.com/v1`, Ollama at `http://localhost:11434/v1`, and
/// the others at OpenAI's `https://api.openai.com/v1`; a configured address
/// is always used as it is.
pub proof fn law_provider_bases(provider: Seq<char>, base_url: Seq<char>)
    ensures
        known_provider(provider) <==> (provider == "openai"@ || provider == "custom"@ || provider
            == "anthropic"@ || provider == "ollama"@),
        base_url.len() > 0 ==> effective_base_url(provider, base_url) == base_url,
        base_url.len() == 0 && provider == "anthropic"@ ==> effective_base_url(provider, base_url)
            == "https://api.anthropic.com/v1"@,
        base_url.len() == 0 && provider == "ollama"@ ==> effective_base_url(provider, base_url)
            == "http://localhost:11434/v1"@,
        base_url.len() == 0 && (provider == "openai"@ || provider == "custom"@) ==> effective_base_url(
            provider,
            base_url,
        ) == "https://api.openai.com/v1"@,
{
    reveal_strlit("anthropic");
    reveal_strlit("ollama");
    reveal_strlit("openai");
    reveal_strlit("custom");
    assert("anthropic"@.len() == 9);
    assert("ollama"@.len() == 6 && "ollama"@[0] == 'o');
    assert("openai"@.len() == 6 && "openai"@[0] == 'o' && "openai"@[1] == 'p');
    assert("ollama"@[1] == 'l');
    assert("custom"@.len() == 6 && "custom"@[0] == 'c');
    assert("anthropic"@ != "openai"@ && "anthropic"@ != "custom"@ && "anthropic"@ != "ollama"@);
    assert("ollama"@ != "openai"@ && "ollama"@ != "custom"@);
}

} // verus!
