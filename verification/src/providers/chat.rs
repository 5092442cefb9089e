//! What goes to a language model and what comes back.

use vstd::prelude::*;
use vstd::string::*;
use crate::json::JsonNumber;

verus! {

/// How a model should answer. What is not set is left to the provider.
#[derive(Debug)]
pub struct ChatOptions {
    pub max_tokens: Option<u32>,
    pub temperature: Option<JsonNumber>,
    pub top_p: Option<JsonNumber>,
}

impl Default for ChatOptions {
    fn default() -> (r: ChatOptions)
        ensures
            r.max_tokens is None,
            r.temperature is None,
            r.top_p is None,
    {
        ChatOptions { max_tokens: None, temperature: None, top_p: None }
    }
}

/// How many tokens a call took.
#[derive(Debug, Clone, Copy, PartialEq, Eq, Structural)]
pub struct Usage {
    pub prompt_tokens: u32,
    pub completion_tokens: u32,
    pub total_tokens: u32,
}

/// The usage of the given numbers of tokens. The total is taken modulo the
/// range of its type.
pub open spec fn usage(prompt: u32, completion: u32) -> Usage {
    Usage {
        prompt_tokens: prompt,
        completion_tokens: completion,
        total_tokens: prompt.wrapping_add(completion),
    }
}

impl Usage {
    /// The usage of the given numbers of tokens.
    pub fn new(prompt_tokens: u32, completion_tokens: u32) -> (r: Usage)
        ensures
            r == usage(prompt_tokens, completion_tokens),
    {
        Usage {
            prompt_tokens,
            completion_tokens,
            total_tokens: prompt_tokens.wrapping_add(completion_tokens),
        }
    }
}

/// The answer of a model.
#[derive(Debug)]
pub struct LLMResponse {
    pub content: String,
    pub usage: Option<Usage>,
}

/// What an answer says.
#[verifier::ext_equal]
pub struct ResponseModel {
    pub content: Seq<char>,
    pub usage: Option<Usage>,
}

impl View for LLMResponse {
    type V = ResponseModel;

    open spec fn view(&self) -> ResponseModel {
        ResponseModel { content: self.content@, usage: self.usage }
    }
}

impl LLMResponse {
    /// An answer of text alone.
    pub fn text(content: &str) -> (r: LLMResponse)
        ensures
            r@ == (ResponseModel { content: content@, usage: None }),
    {
        LLMResponse { content: content.to_string(), usage: None }
    }

    /// The answer with what it took.
    pub fn with_usage(self, usage: Usage) -> (r: LLMResponse)
        ensures
            r@ == (ResponseModel { content: self@.content, usage: Some(usage) }),
    {
        LLMResponse { content: self.content, usage: Some(usage) }
    }
}

} // verus!
