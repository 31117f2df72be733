//! Configuration of the model.

use vstd::prelude::*;

verus! {

/// The version of the model that answers.
#[derive(Debug, Clone, Copy, PartialEq)]
#[allow(non_camel_case_types)]
pub enum ChatGPTEngine {
    /// Standard engine: `gpt-3.5-turbo`
    Gpt35Turbo,
    /// Different version of standard engine: `gpt-3.5-turbo-0301`
    Gpt35Turbo_0301,
    /// Base GPT-4 model: `gpt-4`
    Gpt4,
    /// Version of GPT-4, able to remember 32,000 tokens: `gpt-4-32k`
    Gpt4_32k,
    /// Different version of GPT-4: `gpt-4-0314`
    Gpt4_0314,
    /// Different version of GPT-4, able to remember 32,000 tokens: `gpt-4-32k-0314`
    Gpt4_32k_0314,
    /// Another version, by the name the service knows it under.
    Custom(&'static str),
}

/// The name under which the service knows an engine.
pub open spec fn engine_name(engine: ChatGPTEngine) -> Seq<char> {
    match engine {
        ChatGPTEngine::Gpt35Turbo => "gpt-3.5-turbo"@,
        ChatGPTEngine::Gpt35Turbo_0301 => "gpt-3.5-turbo-0301"@,
        ChatGPTEngine::Gpt4 => "gpt-4"@,
        ChatGPTEngine::Gpt4_32k => "gpt-4-32k"@,
        ChatGPTEngine::Gpt4_0314 => "gpt-4-0314"@,
        ChatGPTEngine::Gpt4_32k_0314 => "gpt-4-32k-0314"@,
        ChatGPTEngine::Custom(custom) => custom@,
    }
}

impl Default for ChatGPTEngine {
    fn default() -> (r: Self)
        ensures
            r == ChatGPTEngine::Gpt35Turbo,
    {
        ChatGPTEngine::Gpt35Turbo
    }
}

impl AsRef<str> for ChatGPTEngine {
    fn as_ref(&self) -> (r: &str)
        ensures
            r@ == engine_name(*self),
    {
        match self {
            ChatGPTEngine::Gpt35Turbo => "gpt-3.5-turbo",
            ChatGPTEngine::Gpt35Turbo_0301 => "gpt-3.5-turbo-0301",
            ChatGPTEngine::Gpt4 => "gpt-4",
            ChatGPTEngine::Gpt4_32k => "gpt-4-32k",
            ChatGPTEngine::Gpt4_0314 => "gpt-4-0314",
            ChatGPTEngine::Gpt4_32k_0314 => "gpt-4-32k-0314",
            ChatGPTEngine::Custom(custom) => custom,
        }
    }
}

impl ChatGPTEngine {
    /// The name of the engine as an owned string, as `to_string` would give it.
    pub fn name(&self) -> (r: String)
        ensures
            r@ == engine_name(*self),
    {
        self.as_ref().to_owned()
    }
}

} // verus!
