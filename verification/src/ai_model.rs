//! The chat-completion reply of a language model, as the AI agent reads it.

use vstd::prelude::*;
use crate::json::Json;

verus! {

/// A chat-completion reply.
#[derive(Debug)]
pub struct AiAgentModel {
    pub choices: Vec<Choice>,
    pub created: u64,
    pub id: String,
    pub model: String,
    pub object: String,
    pub service_tier: String,
    pub system_fingerprint: String,
    pub usage: Usage,
}

/// One completion of a reply.
#[derive(Debug)]
pub struct Choice {
    pub finish_reason: String,
    pub index: u32,
    pub logprobs: Option<Json>,
    pub message: Message,
}

/// The assistant message of a completion.
#[derive(Debug)]
pub struct Message {
    pub annotations: Vec<Json>,
    pub content: Option<String>,
    pub refusal: Option<String>,
    pub role: String,
    pub tool_calls: Vec<ToolCall>,
}

/// A call of a tool requested by the model.
#[derive(Debug)]
pub struct ToolCall {
    pub function: Function,
    pub id: String,
    pub call_type: String,
}

/// The tool and its arguments (JSON text).
#[derive(Debug)]
pub struct Function {
    pub arguments: String,
    pub name: String,
}

/// Token accounting of a reply.
#[derive(Debug)]
pub struct Usage {
    pub completion_tokens: u32,
    pub completion_tokens_details: CompletionTokensDetails,
    pub prompt_tokens: u32,
    pub prompt_tokens_details: PromptTokensDetails,
    pub total_tokens: u32,
}

/// Details of the completion tokens.
#[derive(Debug)]
pub struct CompletionTokensDetails {
    pub accepted_prediction_tokens: u32,
    pub audio_tokens: u32,
    pub reasoning_tokens: u32,
    pub rejected_prediction_tokens: u32,
}

/// Details of the prompt tokens.
#[derive(Debug)]
pub struct PromptTokensDetails {
    pub audio_tokens: u32,
    pub cached_tokens: u32,
}

} // verus!
