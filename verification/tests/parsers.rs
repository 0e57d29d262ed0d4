use rust_llm_logger::parsers::OllamaParser;
use rust_llm_logger::types::TokenUsage;

#[test]
fn test_ollama_parser_missing_prompt_tokens() {
    // A final Ollama chunk that carries `eval_count` but no
    // `prompt_eval_count` must still yield the completion count, with the
    // prompt count left absent rather than defaulted.
    let mut parser = OllamaParser::new();

    let chunk1 = br#"{"model":"llama2","created_at":"2025-11-09T12:34:56.789Z","response":"hello","done":false}
"#;
    let chunk2 = br#"{"model":"llama2","created_at":"2025-11-09T12:34:57.789Z","response":" world","done":false}
"#;
    let final_chunk = br#"{"model":"llama2","created_at":"2025-11-09T12:34:58.789Z","response":"","done":true,"eval_count":42}
"#;

    parser.feed_chunk(chunk1);
    parser.feed_chunk(chunk2);
    parser.feed_chunk(final_chunk);

    let usage = parser.finalize();

    assert_eq!(
        usage,
        TokenUsage { prompt_tokens: None, completion_tokens: Some(42) },
        "Parser should correctly extract completion_tokens even when prompt_tokens is missing"
    );
}

#[test]
fn ollama_three_line_stream_yields_final_counts() {
    // Scenario: two delta lines and a terminal line with only eval_count.
    let mut parser = OllamaParser::new();
    parser.feed_chunk(b"{\"response\":\"hello\",\"done\":false}\n");
    parser.feed_chunk(b"{\"response\":\" world\",\"done\":false}\n");
    parser.feed_chunk(b"{\"response\":\"\",\"done\":true,\"eval_count\":42}\n");
    let usage = parser.finalize();
    assert_eq!(usage.prompt_tokens, None);
    assert_eq!(usage.completion_tokens, Some(42));
}

#[test]
fn ollama_chunk_boundaries_do_not_matter() {
    // The same logical stream, delivered whole and split mid-line, must
    // finalize to the identical usage.
    let stream = b"{\"response\":\"a\",\"done\":false}\n{\"done\":true,\"prompt_eval_count\":5,\"eval_count\":9}\n";

    let mut whole = OllamaParser::new();
    whole.feed_chunk(stream);
    let expected = whole.finalize();

    for split in 0..stream.len() {
        let mut parts = OllamaParser::new();
        parts.feed_chunk(&stream[..split]);
        parts.feed_chunk(&stream[split..]);
        assert_eq!(parts.finalize(), expected);
    }
    assert_eq!(expected, TokenUsage { prompt_tokens: Some(5), completion_tokens: Some(9) });
}

#[test]
fn ollama_done_line_updates_field_by_field() {
    // A later done-line with only one count present overwrites that field
    // alone and never clears the other.
    let mut parser = OllamaParser::new();
    parser.feed_chunk(b"{\"done\":true,\"prompt_eval_count\":3,\"eval_count\":4}\n");
    parser.feed_chunk(b"{\"done\":true,\"eval_count\":10}\n");
    let usage = parser.finalize();
    assert_eq!(usage, TokenUsage { prompt_tokens: Some(3), completion_tokens: Some(10) });
}

#[test]
fn ollama_non_done_lines_never_update() {
    let mut parser = OllamaParser::new();
    parser.feed_chunk(b"{\"done\":false,\"prompt_eval_count\":7,\"eval_count\":8}\n");
    let usage = parser.finalize();
    assert_eq!(usage, TokenUsage { prompt_tokens: None, completion_tokens: None });
}

#[test]
fn ollama_malformed_line_is_discarded_and_stream_continues() {
    let mut parser = OllamaParser::new();
    parser.feed_chunk(b"this is not json\n");
    parser.feed_chunk(b"{\"done\":true,\"eval_count\":2}\n");
    let usage = parser.finalize();
    assert_eq!(usage, TokenUsage { prompt_tokens: None, completion_tokens: Some(2) });
}

#[test]
fn ollama_blank_lines_are_skipped() {
    let mut parser = OllamaParser::new();
    parser.feed_chunk(b"\n  \r\n\n{\"done\":true,\"eval_count\":1}\n\n");
    let usage = parser.finalize();
    assert_eq!(usage, TokenUsage { prompt_tokens: None, completion_tokens: Some(1) });
}

#[test]
fn ollama_finalize_decodes_unterminated_tail() {
    // The final line may lack its newline; finalize makes one more attempt.
    let mut parser = OllamaParser::new();
    parser.feed_chunk(b"{\"response\":\"x\",\"done\":false}\n");
    parser.feed_chunk(b"{\"done\":true,\"prompt_eval_count\":11,\"eval_count\":12}");
    let usage = parser.finalize();
    assert_eq!(usage, TokenUsage { prompt_tokens: Some(11), completion_tokens: Some(12) });
}

#[test]
fn ollama_empty_stream_yields_absent_counts() {
    let parser = OllamaParser::new();
    let usage = parser.finalize();
    assert_eq!(usage, TokenUsage { prompt_tokens: None, completion_tokens: None });
}

#[test]
fn ollama_empty_chunks_are_harmless() {
    let mut parser = OllamaParser::new();
    parser.feed_chunk(b"");
    parser.feed_chunk(b"{\"done\":true,\"eval_count\":6}\n");
    parser.feed_chunk(b"");
    let usage = parser.finalize();
    assert_eq!(usage, TokenUsage { prompt_tokens: None, completion_tokens: Some(6) });
}

#[test]
fn token_usage_default_is_both_absent() {
    assert_eq!(
        TokenUsage::default(),
        TokenUsage { prompt_tokens: None, completion_tokens: None }
    );
}
