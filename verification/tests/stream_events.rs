use local_agent::anthropic;
use local_agent::anthropic::{parse_stream_event, StreamEvent};
use local_agent::error::{status_error, AIApiError, SseError, SseEvent};
use local_agent::json::Json;
use local_agent::openai;
use local_agent::openai::{parse_chunk, ChatCompletionChunk, ChunkChoice, Delta};

fn other(error: AIApiError) -> String {
    match error {
        AIApiError::Other(text) => text,
        found => panic!("another error: {found:?}"),
    }
}

fn event(data: &str) -> Option<StreamEvent> {
    parse_stream_event(data).unwrap()
}

fn http_error() -> reqwest::Error {
    reqwest::Client::new().get("not an address").build().unwrap_err()
}

#[test]
fn status_errors() {
    assert!(matches!(status_error(429), AIApiError::QuotaLimit { user_display_message: None }));
    assert!(matches!(status_error(500), AIApiError::ServerOverloaded));
    assert!(matches!(status_error(599), AIApiError::ServerOverloaded));
    for status in [200, 401, 404, 499, 600] {
        match status_error(status) {
            AIApiError::ErrorStatus(code, text) => {
                assert_eq!(code, status);
                assert_eq!(text, format!("HTTP {status}"));
            }
            found => panic!("another error: {found:?}"),
        }
    }
}

#[test]
fn stream_failures_keep_their_cause() {
    let words = http_error().to_string();
    match openai::map_eventsource_error(SseError::Transport(http_error())) {
        AIApiError::Transport(cause) => assert_eq!(cause.to_string(), words),
        found => panic!("another error: {found:?}"),
    }
    match anthropic::map_eventsource_error(SseError::Transport(http_error())) {
        AIApiError::Transport(cause) => assert_eq!(cause.to_string(), words),
        found => panic!("another error: {found:?}"),
    }
    assert!(matches!(
        anthropic::map_eventsource_error(SseError::InvalidStatusCode(503)),
        AIApiError::ServerOverloaded
    ));
}

#[test]
fn stream_failures_in_words() {
    assert_eq!(
        other(openai::map_eventsource_error(SseError::Other("x".to_string()))),
        "Local SSE error: x"
    );
    assert_eq!(
        other(anthropic::map_eventsource_error(SseError::Other("x".to_string()))),
        "Anthropic SSE error: x"
    );
}

#[test]
fn request_failures_in_words() {
    assert_eq!(other(openai::serialize_error("e")), "Failed to serialize local chat request: e");
    assert_eq!(other(openai::connect_error("e")), "Failed to connect to local endpoint: e");
    assert_eq!(
        other(anthropic::serialize_error("e")),
        "Failed to serialize anthropic local request: e"
    );
    assert_eq!(
        other(anthropic::connect_error("e")),
        "Failed to connect to anthropic local endpoint: e"
    );
}

#[test]
fn stream_items_pass_over_what_is_empty() {
    assert!(openai::stream_item(SseEvent::Open).is_none());
    assert!(openai::stream_item(SseEvent::Message(String::new())).is_none());
    assert_eq!(
        openai::stream_item(SseEvent::Message(" ".to_string())).unwrap().unwrap(),
        " "
    );
    assert!(anthropic::stream_item(SseEvent::Open).is_none());
    assert_eq!(
        anthropic::stream_item(SseEvent::Message("d".to_string())).unwrap().unwrap(),
        "d"
    );
    let failed = SseEvent::Failed(SseError::Other("gone".to_string()));
    assert_eq!(other(anthropic::stream_item(failed).unwrap().unwrap_err()), "Anthropic SSE error: gone");
}

#[test]
fn chunk_end_of_stream() {
    assert!(parse_chunk(" [DONE]\n", Err("unread".to_string())).unwrap().is_none());
}

#[test]
fn chunk_decoded() {
    let chunk = ChatCompletionChunk {
        choices: vec![ChunkChoice {
            delta: Delta { content: Some("hi".to_string()), tool_calls: vec![] },
            finish_reason: None,
        }],
    };
    let read = parse_chunk("{}", Ok(chunk)).unwrap().unwrap();
    assert_eq!(read.choices[0].delta.content.as_deref(), Some("hi"));
}

#[test]
fn chunk_that_does_not_decode() {
    let error = parse_chunk(" x ", Err("expected value".to_string())).unwrap_err();
    assert_eq!(other(error), "Failed to parse local SSE chunk: expected value; data= x ");
}

#[test]
fn event_nothing_to_tell() {
    assert!(event("").is_none());
    assert!(event("  \n").is_none());
    assert!(event(" [DONE] ").is_none());
    assert!(event("{}").is_none());
    assert!(event(r#"{"type":7}"#).is_none());
    assert!(event(r#"{"type":"ping"}"#).is_none());
    assert!(event("[]").is_none());
}

#[test]
fn event_that_is_no_json() {
    let error = parse_stream_event("  {\"type\":  ").unwrap_err();
    assert_eq!(
        other(error),
        "Failed to parse anthropic SSE event: EOF while parsing a value at line 1 column 8; data={\"type\":"
    );
}

#[test]
fn event_text_block() {
    let data = r#"{"type":"content_block_start","content_block":{"type":"text","text":"Hi"}}"#;
    assert!(matches!(event(data), Some(StreamEvent::TextDelta(text)) if text == "Hi"));
    let empty = r#"{"type":"content_block_start","content_block":{"type":"text","text":""}}"#;
    assert!(event(empty).is_none());
    assert!(event(r#"{"type":"content_block_start"}"#).is_none());
    assert!(event(r#"{"type":"content_block_start","content_block":{}}"#).is_none());
    assert!(event(r#"{"type":"content_block_start","content_block":{"type":"image"}}"#).is_none());
}

#[test]
fn event_tool_block() {
    let data = r#"{"type":"content_block_start","index":3,
        "content_block":{"type":"tool_use","id":"i","name":"n","input":{"a":"b"}}}"#;
    match event(data) {
        Some(StreamEvent::ToolUseStart { index, id, name, input }) => {
            assert_eq!(index, 3);
            assert_eq!(id, "i");
            assert_eq!(name, "n");
            assert_eq!(input.unwrap().to_text(), r#"{"a":"b"}"#);
        }
        found => panic!("another event: {found:?}"),
    }
}

#[test]
fn event_tool_block_that_says_little() {
    let data = r#"{"type":"content_block_start","index":-1,"content_block":{"type":"tool_use","id":4}}"#;
    match event(data) {
        Some(StreamEvent::ToolUseStart { index, id, name, input }) => {
            assert_eq!(index, 0);
            assert_eq!(id, "");
            assert_eq!(name, "");
            assert!(input.is_none());
        }
        found => panic!("another event: {found:?}"),
    }
    let null = r#"{"type":"content_block_start","content_block":{"type":"tool_use","input":null}}"#;
    match event(null) {
        Some(StreamEvent::ToolUseStart { input, .. }) => assert_eq!(input, Some(Json::Null)),
        found => panic!("another event: {found:?}"),
    }
}

#[test]
fn event_deltas() {
    let text = r#"{"type":"content_block_delta","delta":{"type":"text_delta","text":"a"}}"#;
    assert!(matches!(event(text), Some(StreamEvent::TextDelta(t)) if t == "a"));
    let input = r#"{"type":"content_block_delta","index":2,
        "delta":{"type":"input_json_delta","partial_json":"{\"a"}}"#;
    assert!(matches!(
        event(input),
        Some(StreamEvent::ToolUseInputDelta { index: 2, partial_json }) if partial_json == "{\"a"
    ));
    for nothing in [
        r#"{"type":"content_block_delta"}"#,
        r#"{"type":"content_block_delta","delta":{}}"#,
        r#"{"type":"content_block_delta","delta":{"type":"text_delta","text":""}}"#,
        r#"{"type":"content_block_delta","delta":{"type":"input_json_delta"}}"#,
        r#"{"type":"content_block_delta","delta":{"type":"thinking_delta","text":"a"}}"#,
    ] {
        assert!(event(nothing).is_none());
    }
}

#[test]
fn event_stops() {
    assert!(matches!(
        event(r#"{"type":"content_block_stop","index":5}"#),
        Some(StreamEvent::ToolUseStop { index: 5 })
    ));
    assert!(matches!(event(r#"{"type":"message_stop"}"#), Some(StreamEvent::MessageStop)));
}

#[test]
fn event_content_filter() {
    assert!(matches!(
        event(r#"{"type":"message_delta","delta":{"stop_reason":"content_filter"}}"#),
        Some(StreamEvent::ContentFiltered)
    ));
    assert!(event(r#"{"type":"message_delta","delta":{"stop_reason":"end_turn"}}"#).is_none());
    assert!(event(r#"{"type":"message_delta"}"#).is_none());
}

#[test]
fn event_errors() {
    match event(r#"{"type":"error","error":{"type":"t","message":"m"}}"#) {
        Some(StreamEvent::Error { kind, message }) => {
            assert_eq!(kind, "t");
            assert_eq!(message, "m");
        }
        found => panic!("another event: {found:?}"),
    }
    match event(r#"{"type":"error","error":"late"}"#) {
        Some(StreamEvent::Error { kind, message }) => {
            assert_eq!(kind, "error");
            assert_eq!(message, "Unknown Anthropic streaming error.");
        }
        found => panic!("another event: {found:?}"),
    }
}
