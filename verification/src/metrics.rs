//! Building the one metrics record a completed stream emits.

use crate::types::LLMMetrics;
use crate::types::RequestData;
use crate::types::TokenUsage;
use vstd::prelude::*;

verus! {

/// Combine request metadata, a finalized usage, the elapsed time and a
/// capture timestamp into the one record handed to the sink.
pub fn build_metrics(
    data: &RequestData,
    usage: &TokenUsage,
    latency_ms: u64,
    timestamp: String,
) -> (m: LLMMetrics)
    ensures
        m.model@ == data.model@,
        m.prompt@ == data.prompt@,
        m.prompt_tokens == usage.prompt_tokens,
        m.completion_tokens == usage.completion_tokens,
        m.latency_ms == latency_ms,
        m.timestamp@ == timestamp@,
{
    LLMMetrics {
        model: data.model.clone(),
        prompt: data.prompt.clone(),
        prompt_tokens: usage.prompt_tokens,
        completion_tokens: usage.completion_tokens,
        latency_ms,
        timestamp,
    }
}

/// Decide what a completed stream emits: one record when request data is
/// present, nothing at all when it is absent — never a partial record.
pub fn metrics_for_stream(
    data: Option<&RequestData>,
    usage: &TokenUsage,
    latency_ms: u64,
    timestamp: String,
) -> (m: Option<LLMMetrics>)
    ensures
        match (m, data) {
            (Some(mm), Some(d)) => mm.model@ == d.model@ && mm.prompt@ == d.prompt@
                && mm.prompt_tokens == usage.prompt_tokens && mm.completion_tokens
                == usage.completion_tokens && mm.latency_ms == latency_ms && mm.timestamp@
                == timestamp@,
            (None, None) => true,
            _ => false,
        },
{
    match data {
        Some(d) => Some(build_metrics(d, usage, latency_ms, timestamp)),
        None => None,
    }
}

} // verus!
