use rust_llm_logger::parsers::OpenAIParser;
use rust_llm_logger::types::TokenUsage;

#[test]
fn openai_delta_events_then_usage_event() {
    // Scenario: delta events with no usage, then one event carrying it.
    let mut parser = OpenAIParser::new();
    parser.feed_chunk(b"data: {\"choices\":[{\"delta\":{\"content\":\"hi\"}}]}\n\n");
    parser.feed_chunk(b"data: {\"choices\":[{\"delta\":{\"content\":\" there\"}}]}\n\n");
    parser.feed_chunk(b"data: {\"usage\":{\"prompt_tokens\":12,\"completion_tokens\":7}}\n\n");
    parser.feed_chunk(b"data: [DONE]\n\n");
    let usage = parser.finalize();
    assert_eq!(usage, TokenUsage { prompt_tokens: Some(12), completion_tokens: Some(7) });
}

#[test]
fn openai_usage_replaces_both_counters_outright() {
    // Even when usage appears twice, the later one replaces both fields.
    let mut parser = OpenAIParser::new();
    parser.feed_chunk(b"data: {\"usage\":{\"prompt_tokens\":1,\"completion_tokens\":2}}\n\n");
    parser.feed_chunk(b"data: {\"usage\":{\"prompt_tokens\":30,\"completion_tokens\":40}}\n\n");
    let usage = parser.finalize();
    assert_eq!(usage, TokenUsage { prompt_tokens: Some(30), completion_tokens: Some(40) });
}

#[test]
fn openai_feeding_same_usage_twice_is_idempotent() {
    let event = b"data: {\"usage\":{\"prompt_tokens\":5,\"completion_tokens\":6}}\n\n";

    let mut once = OpenAIParser::new();
    once.feed_chunk(event);
    let usage_once = once.finalize();

    let mut twice = OpenAIParser::new();
    twice.feed_chunk(event);
    twice.feed_chunk(event);
    let usage_twice = twice.finalize();

    assert_eq!(usage_once, usage_twice);
    assert_eq!(usage_twice, TokenUsage { prompt_tokens: Some(5), completion_tokens: Some(6) });
}

#[test]
fn openai_sentinel_comments_and_blanks_change_nothing() {
    // The [DONE] sentinel, comment lines and blank lines are skipped without
    // any decode attempt, and never fail the parser.
    let mut parser = OpenAIParser::new();
    parser.feed_chunk(b": keep-alive\n\n");
    parser.feed_chunk(b"\n\n");
    parser.feed_chunk(b"data: [DONE]\n\n");
    let usage = parser.finalize();
    assert_eq!(usage, TokenUsage { prompt_tokens: None, completion_tokens: None });
}

#[test]
fn openai_chunk_boundaries_do_not_matter() {
    let stream = b"data: {\"choices\":[]}\n\ndata: {\"usage\":{\"prompt_tokens\":8,\"completion_tokens\":9}}\n\ndata: [DONE]\n\n";

    let mut whole = OpenAIParser::new();
    whole.feed_chunk(stream);
    let expected = whole.finalize();

    for split in 0..stream.len() {
        let mut parts = OpenAIParser::new();
        parts.feed_chunk(&stream[..split]);
        parts.feed_chunk(&stream[split..]);
        assert_eq!(parts.finalize(), expected);
    }
    assert_eq!(expected, TokenUsage { prompt_tokens: Some(8), completion_tokens: Some(9) });
}

#[test]
fn openai_undecodable_data_line_is_ignored() {
    let mut parser = OpenAIParser::new();
    parser.feed_chunk(b"data: not json at all\n\n");
    parser.feed_chunk(b"data: {\"usage\":{\"prompt_tokens\":2,\"completion_tokens\":3}}\n\n");
    let usage = parser.finalize();
    assert_eq!(usage, TokenUsage { prompt_tokens: Some(2), completion_tokens: Some(3) });
}

#[test]
fn openai_event_block_may_hold_several_lines() {
    let mut parser = OpenAIParser::new();
    parser.feed_chunk(
        b": comment\ndata: {\"usage\":{\"prompt_tokens\":21,\"completion_tokens\":22}}\n\n",
    );
    let usage = parser.finalize();
    assert_eq!(usage, TokenUsage { prompt_tokens: Some(21), completion_tokens: Some(22) });
}

#[test]
fn openai_trailing_block_without_delimiter_is_dropped() {
    // A final block that never received its closing blank line is dropped:
    // the accepted gap of the format.
    let mut parser = OpenAIParser::new();
    parser.feed_chunk(b"data: {\"usage\":{\"prompt_tokens\":1,\"completion_tokens\":1}}");
    let usage = parser.finalize();
    assert_eq!(usage, TokenUsage { prompt_tokens: None, completion_tokens: None });
}

#[test]
fn openai_empty_stream_yields_absent_counts() {
    let parser = OpenAIParser::new();
    let usage = parser.finalize();
    assert_eq!(usage, TokenUsage { prompt_tokens: None, completion_tokens: None });
}
