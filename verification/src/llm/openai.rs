//! The OpenAI chat-completions provider: its settings and the parts of a
//! request that do not depend on the network.

use vstd::prelude::*;
use crate::text::{occurs_at, seq_contains, str_contains};

verus! {

broadcast use vstd::string::group_string_axioms;

/// The base address of OpenAI's API, which a provider made with `new` uses;
/// the chat endpoint is this followed by `/chat/completions`.
pub const API_URL: &'static str = "https://api.openai.com/v1";

/// A provider for an OpenAI-compatible chat-completions endpoint.
#[derive(Debug)]
pub struct OpenAiProvider {
    pub model: String,
    pub api_key: String,
    pub base_url: Option<String>,
    ctx_window: usize,
}

/// The context window of `model`, in tokens, judged by its name.
pub open spec fn context_window_of(model: Seq<char>) -> usize {
    if seq_contains(model, "gpt-4o"@) {
        128_000
    } else if seq_contains(model, "gpt-4-turbo"@) {
        128_000
    } else if seq_contains(model, "gpt-4"@) {
        8_192
    } else if seq_contains(model, "gpt-3.5-turbo"@) {
        16_385
    } else {
        128_000
    }
}

impl OpenAiProvider {
    /// The context window this provider was made with.
    pub closed spec fn spec_context_window(&self) -> usize {
        self.ctx_window
    }

    /// The model's name.
    pub closed spec fn spec_model(&self) -> Seq<char> {
        self.model@
    }

    /// The API key.
    pub closed spec fn spec_api_key(&self) -> Seq<char> {
        self.api_key@
    }

    /// The base address, if any.
    pub closed spec fn spec_base_url(&self) -> Option<Seq<char>> {
        match self.base_url {
            Some(b) => Some(b@),
            None => None,
        }
    }

    /// A provider for `model` starting from `API_URL`.
    pub fn new(model: &str, api_key: &str) -> (r: Self)
        ensures
            r.spec_model() == model@,
            r.spec_api_key() == api_key@,
            r.spec_base_url() == Some(API_URL@),
            r.spec_context_window() == context_window_of(model@),
    {
        Self::with_base_url(model, api_key, API_URL)
    }

    /// A provider for `model` at `base_url`.
    pub fn with_base_url(model: &str, api_key: &str, base_url: &str) -> (r: Self)
        ensures
            r.spec_model() == model@,
            r.spec_api_key() == api_key@,
            r.spec_base_url() == Some(base_url@),
            r.spec_context_window() == context_window_of(model@),
    {
        let ctx_window = if str_contains(model, "gpt-4o") {
            128_000
        } else if str_contains(model, "gpt-4-turbo") {
            128_000
        } else if str_contains(model, "gpt-4") {
            8_192
        } else if str_contains(model, "gpt-3.5-turbo") {
            16_385
        } else {
            128_000
        };
        OpenAiProvider {
            model: model.to_owned(),
            api_key: api_key.to_owned(),
            base_url: Some(base_url.to_owned()),
            ctx_window,
        }
    }

    /// The endpoint the chat request is sent to: the base address (or
    /// `API_URL`) followed by `/chat/completions`.
    pub fn chat_url(&self) -> (r: String)
        ensures
            r@ == match self.spec_base_url() {
                Some(b) => b,
                None => API_URL@,
            } + "/chat/completions"@,
    {
        let mut r = String::new();
        match &self.base_url {
            Some(b) => r.append(b.as_str()),
            None => r.append(API_URL),
        }
        r.append("/chat/completions");
        r
    }

    /// The value of the `Authorization` header.
    pub fn authorization(&self) -> (r: String)
        ensures
            r@ == "Bearer "@ + self.spec_api_key(),
    {
        let mut r = String::new();
        r.append("Bearer ");
        r.append(self.api_key.as_str());
        r
    }

    /// The tool choice sent with a request: `auto` when tools are offered.
    pub fn tool_choice(&self, has_tools: bool) -> (r: Option<String>)
        ensures
            has_tools ==> (r matches Some(c) && c@ == "auto"@),
            !has_tools ==> r is None,
    {
        if has_tools {
            Some("auto".to_owned())
        } else {
            None
        }
    }

    /// The provider's name: its model.
    pub fn name(&self) -> (r: &str)
        ensures
            r@ == self.spec_model(),
    {
        self.model.as_str()
    }

    /// The model's context window, in tokens.
    pub fn context_window(&self) -> (r: usize)
        ensures
            r == self.spec_context_window(),
    {
        self.ctx_window
    }
}

impl Clone for OpenAiProvider {
    fn clone(&self) -> (r: Self)
        ensures
            r.spec_model() == self.spec_model(),
            r.spec_api_key() == self.spec_api_key(),
            r.spec_base_url() == self.spec_base_url(),
            r.spec_context_window() == self.spec_context_window(),
    {
        OpenAiProvider {
            model: self.model.clone(),
            api_key: self.api_key.clone(),
            base_url: match &self.base_url {
                Some(b) => Some(b.clone()),
                None => None,
            },
            ctx_window: self.ctx_window,
        }
    }
}

/// The context window a provider is made with, by what its model's name
/// contains: `gpt-4o` or `gpt-4-turbo` give 128000 tokens; any other name
/// holding `gpt-4` gives 8192; otherwise `gpt-3.5-turbo` gives 16385; any
/// other name gives 128000.
pub proof fn law_context_windows(model: Seq<char>)
    ensures
        seq_contains(model, "gpt-4o"@) ==> context_window_of(model) == 128_000,
        !seq_contains(model, "gpt-4o"@) && seq_contains(model, "gpt-4-turbo"@) ==> context_window_of(
            model,
        ) == 128_000,
        !seq_contains(model, "gpt-4o"@) && !seq_contains(model, "gpt-4-turbo"@) && seq_contains(
            model,
            "gpt-4"@,
        ) ==> context_window_of(model) == 8_192,
        !seq_contains(model, "gpt-4"@) && seq_contains(model, "gpt-3.5-turbo"@) ==> context_window_of(
            model,
        ) == 16_385,
        !seq_contains(model, "gpt-4"@) && !seq_contains(model, "gpt-3.5-turbo"@) ==> context_window_of(
            model,
        ) == 128_000,
{
    lemma_gpt4_names(model);
}

/// A name holding `gpt-4o` or `gpt-4-turbo` holds `gpt-4`.
proof fn lemma_gpt4_names(model: Seq<char>)
    ensures
        seq_contains(model, "gpt-4o"@) ==> seq_contains(model, "gpt-4"@),
        seq_contains(model, "gpt-4-turbo"@) ==> seq_contains(model, "gpt-4"@),
{
    reveal_strlit("gpt-4o");
    reveal_strlit("gpt-4-turbo");
    reveal_strlit("gpt-4");
    if seq_contains(model, "gpt-4o"@) {
        let i = choose|i: int| occurs_at(model, "gpt-4o"@, i);
        assert(model.subrange(i, i + 5) =~= model.subrange(i, i + 6).subrange(0, 5));
        assert("gpt-4o"@.subrange(0, 5) =~= "gpt-4"@);
        assert(occurs_at(model, "gpt-4"@, i));
    }
    if seq_contains(model, "gpt-4-turbo"@) {
        let i = choose|i: int| occurs_at(model, "gpt-4-turbo"@, i);
        assert(model.subrange(i, i + 5) =~= model.subrange(i, i + 11).subrange(0, 5));
        assert("gpt-4-turbo"@.subrange(0, 5) =~= "gpt-4"@);
        assert(occurs_at(model, "gpt-4"@, i));
    }
}

} // verus!
