//! Plain data carried through the proxy core: request metadata, the
//! token-usage accumulator, the final metrics record, and the decoded shapes
//! of the two upstream wire formats.

use vstd::prelude::*;

verus! {

/// Data extracted once from the request body and read once when the metrics
/// record is built.
#[derive(Clone, Debug)]
pub struct RequestData {
    pub model: String,
    pub prompt: String,
    pub raw_body: Vec<u8>,
}

/// Token counts accumulated while observing one response stream.
/// Both fields start absent; an update never moves a present field back to
/// absent.
#[derive(Clone, Copy, Debug, PartialEq, Eq)]
pub struct TokenUsage {
    pub prompt_tokens: Option<u32>,
    pub completion_tokens: Option<u32>,
}

impl TokenUsage {
    /// The accumulator every parser starts from: both counters absent.
    pub open spec fn absent() -> TokenUsage {
        TokenUsage { prompt_tokens: None, completion_tokens: None }
    }

    pub fn new() -> (u: TokenUsage)
        ensures
            u == TokenUsage::absent(),
    {
        TokenUsage { prompt_tokens: None, completion_tokens: None }
    }
}

impl Default for TokenUsage {
    fn default() -> (u: Self)
        ensures
            u == TokenUsage::absent(),
    {
        TokenUsage::new()
    }
}

/// Complete metrics for a single proxied request, built exactly once when the
/// stream ends and handed straight to the sink.
#[derive(Clone, Debug)]
pub struct LLMMetrics {
    pub model: String,
    pub prompt: String,
    pub prompt_tokens: Option<u32>,
    pub completion_tokens: Option<u32>,
    pub latency_ms: u64,
    pub timestamp: String,
}

/// One decoded line of an Ollama NDJSON stream, reduced to the fields the
/// accumulator consumes; every other field of the line is ignored.
#[derive(Clone, Copy, Debug)]
pub struct OllamaStreamResponse {
    pub done: bool,
    pub prompt_eval_count: Option<u32>,
    pub eval_count: Option<u32>,
}

/// The usage object of an OpenAI-compatible stream's terminal event.
#[derive(Clone, Copy, Debug)]
pub struct OpenAIUsage {
    pub prompt_tokens: u32,
    pub completion_tokens: u32,
}

/// One decoded OpenAI-compatible event payload, reduced to the usage object
/// the accumulator consumes; delta events carry no usage.
#[derive(Clone, Copy, Debug)]
pub struct OpenAIResponse {
    pub usage: Option<OpenAIUsage>,
}

/// A request body's fields of interest, for extracting model and prompt.
#[derive(Clone, Debug)]
pub struct GenericRequest {
    pub model: Option<String>,
    pub prompt: Option<String>,
    pub messages: Option<Vec<Message>>,
}

/// One chat message of a request body.
#[derive(Clone, Debug)]
pub struct Message {
    pub role: String,
    pub content: String,
}

} // verus!
