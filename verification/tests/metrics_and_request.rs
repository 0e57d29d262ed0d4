use rust_llm_logger::metrics::build_metrics;
use rust_llm_logger::metrics::metrics_for_stream;
use rust_llm_logger::middleware::build_request_data;
use rust_llm_logger::middleware::extract_prompt;
use rust_llm_logger::types::GenericRequest;
use rust_llm_logger::types::Message;
use rust_llm_logger::types::RequestData;
use rust_llm_logger::types::TokenUsage;

#[test]
fn metrics_record_carries_all_inputs() {
    let data = RequestData {
        model: String::from("llama2"),
        prompt: String::from("why is the sky blue?"),
        raw_body: b"{}".to_vec(),
    };
    let usage = TokenUsage { prompt_tokens: Some(5), completion_tokens: Some(42) };
    let m = build_metrics(&data, &usage, 1234, String::from("2025-11-09T12:34:58Z"));
    assert_eq!(m.model, "llama2");
    assert_eq!(m.prompt, "why is the sky blue?");
    assert_eq!(m.prompt_tokens, Some(5));
    assert_eq!(m.completion_tokens, Some(42));
    assert_eq!(m.latency_ms, 1234);
    assert_eq!(m.timestamp, "2025-11-09T12:34:58Z");
}

#[test]
fn missing_request_data_skips_emission() {
    let usage = TokenUsage { prompt_tokens: Some(1), completion_tokens: Some(2) };
    let m = metrics_for_stream(None, &usage, 10, String::from("t"));
    assert!(m.is_none());
}

#[test]
fn present_request_data_emits_one_record() {
    let data = RequestData {
        model: String::from("m"),
        prompt: String::from("p"),
        raw_body: Vec::new(),
    };
    let usage = TokenUsage { prompt_tokens: None, completion_tokens: Some(3) };
    let m = metrics_for_stream(Some(&data), &usage, 7, String::from("now"));
    let m = m.expect("metrics should be emitted when request data is present");
    assert_eq!(m.model, "m");
    assert_eq!(m.prompt_tokens, None);
    assert_eq!(m.completion_tokens, Some(3));
    assert_eq!(m.latency_ms, 7);
}

#[test]
fn prompt_field_wins_over_messages() {
    let req = GenericRequest {
        model: Some(String::from("m")),
        prompt: Some(String::from("direct prompt")),
        messages: Some(vec![Message {
            role: String::from("user"),
            content: String::from("ignored"),
        }]),
    };
    assert_eq!(extract_prompt(&req), "direct prompt");
}

#[test]
fn messages_join_with_role_prefix_and_newlines() {
    let req = GenericRequest {
        model: None,
        prompt: None,
        messages: Some(vec![
            Message { role: String::from("system"), content: String::from("be brief") },
            Message { role: String::from("user"), content: String::from("hi") },
        ]),
    };
    assert_eq!(extract_prompt(&req), "system: be brief\nuser: hi");
}

#[test]
fn absent_prompt_and_messages_yield_placeholder() {
    let req = GenericRequest { model: None, prompt: None, messages: None };
    assert_eq!(extract_prompt(&req), "no prompt found");
}

#[test]
fn request_data_from_decoded_body() {
    let req = GenericRequest {
        model: Some(String::from("llama2")),
        prompt: Some(String::from("q")),
        messages: None,
    };
    let d = build_request_data(Some(req), b"{\"model\":\"llama2\"}".to_vec());
    assert_eq!(d.model, "llama2");
    assert_eq!(d.prompt, "q");
    assert_eq!(d.raw_body, b"{\"model\":\"llama2\"}".to_vec());
}

#[test]
fn request_data_from_undecodable_body() {
    let d = build_request_data(None, b"not json".to_vec());
    assert_eq!(d.model, "unknown");
    assert_eq!(d.prompt, "unparseable");
    assert_eq!(d.raw_body, b"not json".to_vec());
}

#[test]
fn request_data_without_model_defaults_to_unknown() {
    let req = GenericRequest { model: None, prompt: Some(String::from("q")), messages: None };
    let d = build_request_data(Some(req), Vec::new());
    assert_eq!(d.model, "unknown");
}
