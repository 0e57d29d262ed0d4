use rust_llm_logger::parsers::detect_backend_type;
use rust_llm_logger::parsers::BackendType;
use rust_llm_logger::parsers::PassthroughParser;
use rust_llm_logger::tee::StreamTee;
use rust_llm_logger::types::TokenUsage;

#[test]
fn content_types_classify_as_specified() {
    // Scenario: the three canonical content-types.
    assert_eq!(detect_backend_type("application/x-ndjson"), BackendType::Ollama);
    assert_eq!(detect_backend_type("text/event-stream"), BackendType::OpenAI);
    assert_eq!(detect_backend_type("text/plain"), BackendType::Unknown);
}

#[test]
fn generic_json_classifies_as_ollama_by_design() {
    assert_eq!(detect_backend_type("application/json"), BackendType::Ollama);
    assert_eq!(detect_backend_type("application/json; charset=utf-8"), BackendType::Ollama);
}

#[test]
fn classification_is_substring_based_and_first_match_wins() {
    assert_eq!(detect_backend_type("text/event-stream; charset=utf-8"), BackendType::OpenAI);
    // both substrings present: the NDJSON/JSON match takes precedence
    assert_eq!(
        detect_backend_type("application/x-ndjson, text/event-stream"),
        BackendType::Ollama
    );
    // case-sensitive: an upper-cased content-type does not match
    assert_eq!(detect_backend_type("Application/X-NDJSON"), BackendType::Unknown);
    assert_eq!(detect_backend_type(""), BackendType::Unknown);
}

#[test]
fn passthrough_returns_absent_fields_for_zero_chunks() {
    let parser = PassthroughParser::new();
    assert_eq!(
        parser.finalize(),
        TokenUsage { prompt_tokens: None, completion_tokens: None }
    );
}

#[test]
fn passthrough_returns_absent_fields_whatever_is_fed() {
    let mut parser = PassthroughParser::new();
    parser.feed_chunk(b"{\"done\":true,\"eval_count\":5}\n");
    parser.feed_chunk(b"data: {\"usage\":{\"prompt_tokens\":1,\"completion_tokens\":2}}\n\n");
    parser.feed_chunk(b"");
    assert_eq!(
        parser.finalize(),
        TokenUsage { prompt_tokens: None, completion_tokens: None }
    );
}

#[test]
fn tee_hands_every_frame_back_unchanged() {
    // Byte fidelity: what goes to the client is exactly what the parser saw.
    let mut tee = StreamTee::new(BackendType::Ollama);
    let frames: Vec<Vec<u8>> = vec![
        b"{\"response\":\"a\",".to_vec(),
        b"\"done\":false}\n".to_vec(),
        b"{\"done\":true,\"eval_count\":4}\n".to_vec(),
    ];
    let mut to_client: Vec<u8> = Vec::new();
    let mut to_parser: Vec<u8> = Vec::new();
    for frame in frames {
        to_parser.extend_from_slice(&frame);
        let out = tee.on_frame(frame);
        to_client.extend_from_slice(&out);
    }
    assert_eq!(to_client, to_parser);
    tee.on_upstream_end();
    let usage = tee.finalize();
    assert_eq!(usage, TokenUsage { prompt_tokens: None, completion_tokens: Some(4) });
}

#[test]
fn tee_client_disconnect_still_finalizes_observed_usage() {
    // Scenario: the client goes away after the done-line was observed; the
    // tee stops and still reports the usage seen so far.
    let mut tee = StreamTee::new(BackendType::Ollama);
    let _ = tee.on_frame(b"{\"done\":true,\"prompt_eval_count\":6,\"eval_count\":7}\n".to_vec());
    tee.on_client_disconnect();
    let usage = tee.finalize();
    assert_eq!(usage, TokenUsage { prompt_tokens: Some(6), completion_tokens: Some(7) });
}

#[test]
fn tee_upstream_error_still_finalizes_observed_usage() {
    let mut tee = StreamTee::new(BackendType::OpenAI);
    let _ = tee.on_frame(
        b"data: {\"usage\":{\"prompt_tokens\":2,\"completion_tokens\":9}}\n\n".to_vec(),
    );
    tee.on_upstream_error();
    let usage = tee.finalize();
    assert_eq!(usage, TokenUsage { prompt_tokens: Some(2), completion_tokens: Some(9) });
}

#[test]
fn tee_for_unknown_backend_forwards_and_extracts_nothing() {
    let mut tee = StreamTee::new(BackendType::Unknown);
    let out = tee.on_frame(b"opaque bytes, any format".to_vec());
    assert_eq!(out, b"opaque bytes, any format".to_vec());
    tee.on_upstream_end();
    let usage = tee.finalize();
    assert_eq!(usage, TokenUsage { prompt_tokens: None, completion_tokens: None });
}
