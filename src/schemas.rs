use vstd::prelude::*;

use crate::message::Message;

verus! {

/// The OpenAI-style response: an ordered list of choices, each holding one
/// message.
#[derive(Debug, Clone)]
pub struct OpenAiResponse {
    pub choices: Vec<MessageWrapper>,
}

/// One choice of an OpenAI-style response.
#[derive(Debug, Clone)]
pub struct MessageWrapper {
    pub message: Message,
}

/// One content block of an Anthropic-style response. On the wire the block
/// type is the field `type`.
#[derive(Debug, Clone)]
pub struct AnthropicMessage {
    pub text: String,
    pub block_type: String,
}

/// The Anthropic-style response: an ordered list of content blocks.
#[derive(Debug, Clone)]
pub struct AnthropicResponse {
    pub content: Vec<AnthropicMessage>,
}

/// The local-model-server response: a single message.
#[derive(Debug, Clone)]
pub struct OllamaResponse {
    pub message: Message,
}

/// A safety rating attached to a Gemini-style candidate; informational only.
#[derive(Debug, Clone)]
pub struct SafetyRating {
    pub category: String,
    pub probability: String,
}

/// One text fragment of a Gemini-style candidate.
#[derive(Debug, Clone)]
pub struct Part {
    pub text: String,
}

/// The content of a Gemini-style candidate: its ordered text fragments.
#[derive(Debug, Clone)]
pub struct Content {
    pub parts: Vec<Part>,
}

/// One completion proposal of a Gemini-style response. Only the text of
/// `content.parts` feeds the result; the other fields are kept for
/// inspection. On the wire they are `finishReason`, `index` and
/// `safetyRatings`.
#[derive(Debug, Clone)]
pub struct Candidate {
    pub content: Content,
    pub finish_reason: Option<String>,
    pub index: usize,
    pub safety_ratings: Vec<SafetyRating>,
}

/// Token accounting of a Gemini-style response; informational only. On the
/// wire: `promptTokenCount`, `candidatesTokenCount`, `totalTokenCount`.
#[derive(Debug, Clone)]
pub struct UsageMetadata {
    pub prompt_token_count: usize,
    pub candidates_token_count: usize,
    pub total_token_count: usize,
}

/// The Gemini-style response: ordered candidates and token accounting (on
/// the wire `usageMetadata`).
#[derive(Debug, Clone)]
pub struct GeminiResponse {
    pub candidates: Vec<Candidate>,
    pub usage_metadata: UsageMetadata,
}

} // verus!
