//! JSON decoding of single wire-format units, delegated to serde_json.
//!
//! Decoding a JSON document is far too large to restate here, but it is a pure
//! function of the input bytes, so each decoder's result is given a name that
//! the parsers' contracts are phrased over.

use crate::types::{OllamaStreamResponse, OpenAIResponse, OpenAIUsage};
use vstd::prelude::*;

verus! {

/// What decoding one Ollama NDJSON line yields: `None` when the line is not
/// a JSON object or a consumed field has the wrong type, otherwise its
/// `done`, `prompt_eval_count` and `eval_count` fields, with an absent or
/// null field defaulted (`done` to false, the counts to absent).
pub uninterp spec fn ollama_decode(line: Seq<u8>) -> Option<(bool, Option<u32>, Option<u32>)>;

/// What decoding one OpenAI-compatible event payload yields: `None` when the
/// payload is not a JSON object or carries a malformed `usage` object,
/// otherwise the `usage` object's two counters if `usage` is present.
pub uninterp spec fn openai_decode(data: Seq<u8>) -> Option<Option<(u32, u32)>>;

/// The counter pair a decoded response carries, if any.
pub open spec fn usage_pair(resp: OpenAIResponse) -> Option<(u32, u32)> {
    match resp.usage {
        Some(u) => Some((u.prompt_tokens, u.completion_tokens)),
        None => None,
    }
}

/// Relies on serde_json::from_slice::<serde_json::Value> to parse the line,
/// serde_json::Map::get to look the three fields up, and
/// serde_json::Value::{as_object, is_null, as_bool, as_u64} to read them:
/// the decoded fields are a function of the line's bytes alone.
#[verifier::external_body]
pub(crate) fn decode_ollama_line(line: &[u8]) -> (r: Option<OllamaStreamResponse>)
    ensures
        match r {
            Some(resp) => ollama_decode(line@) == Some(
                (resp.done, resp.prompt_eval_count, resp.eval_count),
            ),
            None => ollama_decode(line@) is None,
        },
{
    let v: serde_json::Value = serde_json::from_slice(line).ok()?;
    let obj = v.as_object()?;
    let done = match obj.get("done") {
        Some(d) if !d.is_null() => d.as_bool()?,
        _ => false,
    };
    let prompt_eval_count = match obj.get("prompt_eval_count") {
        Some(n) if !n.is_null() => Some(u32::try_from(n.as_u64()?).ok()?),
        _ => None,
    };
    let eval_count = match obj.get("eval_count") {
        Some(n) if !n.is_null() => Some(u32::try_from(n.as_u64()?).ok()?),
        _ => None,
    };
    Some(OllamaStreamResponse { done, prompt_eval_count, eval_count })
}

/// Relies on serde_json::from_slice::<serde_json::Value> to parse the
/// payload and serde_json::Value::{as_object, get, is_null, as_u64} to read
/// the usage object: the decoded counters are a function of the payload's
/// bytes alone.
#[verifier::external_body]
pub(crate) fn decode_openai_data(data: &[u8]) -> (r: Option<OpenAIResponse>)
    ensures
        match r {
            Some(resp) => openai_decode(data@) == Some(usage_pair(resp)),
            None => openai_decode(data@) is None,
        },
{
    let v: serde_json::Value = serde_json::from_slice(data).ok()?;
    v.as_object()?;
    let usage = match v.get("usage") {
        Some(u) if !u.is_null() => Some(OpenAIUsage {
            prompt_tokens: u32::try_from(u.get("prompt_tokens")?.as_u64()?).ok()?,
            completion_tokens: u32::try_from(u.get("completion_tokens")?.as_u64()?).ok()?,
        }),
        _ => None,
    };
    Some(OpenAIResponse { usage })
}

} // verus!
