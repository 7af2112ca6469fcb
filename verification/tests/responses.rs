use local_agent::api::{
    AgentInput, ClientAction, FinishReason, LocalAgentConfig, MessageKind, RequestParams, ResponseEvent,
    RunShellCommand, StreamFinished, Task, TaskMessage, Tool, ToolCall,
};
use local_agent::calls::{CallIds, PendingToolCall, RunShellCommandArgs, ToolArgs};
use local_agent::error::AIApiError;
use local_agent::openai::{
    ChatCompletionChunk, ChatMessage, ChunkChoice, Delta, ToolCallDelta, ToolCallFunctionDelta,
};
use local_agent::response::{
    add_messages_event, agent_output_message, agent_output_message_with_id, local_agent_stream,
    local_agent_stream_with_ids, stream_finished_done_event, stream_init_event, OutputIds, ProviderRequest,
};
use local_agent::stream::{provider_error, Answer, StreamControl, StreamInput};
use local_agent::tools::LocalTool;

fn s(text: &str) -> String {
    text.to_string()
}

fn choice(content: Option<&str>, tool_calls: Vec<ToolCallDelta>, finish: Option<&str>) -> ChunkChoice {
    ChunkChoice {
        delta: Delta { content: content.map(s), tool_calls },
        finish_reason: finish.map(s),
    }
}

fn chat(choices: Vec<ChunkChoice>) -> StreamInput {
    StreamInput::ChatData { data: s("{}"), decoded: Ok(ChatCompletionChunk { choices }) }
}

fn part(index: usize, name: &str, arguments: &str) -> ToolCallDelta {
    ToolCallDelta {
        index: Some(index),
        id: None,
        function: Some(ToolCallFunctionDelta { name: Some(s(name)), arguments: Some(s(arguments)) }),
    }
}

fn data(text: &str) -> StreamInput {
    StreamInput::MessagesData(s(text))
}

fn goes_on(control: StreamControl) -> bool {
    matches!(control, StreamControl::Continue)
}

fn words(control: StreamControl) -> String {
    match control {
        StreamControl::Fail(AIApiError::Other(text)) => text,
        found => panic!("another control: {found:?}"),
    }
}

fn run(command: &str) -> Option<Result<ToolArgs, String>> {
    Some(Ok(ToolArgs::RunShellCommand(RunShellCommandArgs {
        command: s(command),
        wait_until_complete: None,
    })))
}

fn ids(count: usize) -> OutputIds {
    let calls = (0..count)
        .map(|i| CallIds { call: format!("c{i}"), message: format!("m{i}") })
        .collect();
    OutputIds { text: s("t"), calls }
}

fn call_message(id: &str, call_id: &str, command: &str) -> TaskMessage {
    TaskMessage {
        id: s(id),
        task_id: s("task"),
        request_id: s("request"),
        server_message_data: s(""),
        message: Some(MessageKind::ToolCall(ToolCall {
            tool_call_id: s(call_id),
            tool: Some(Tool::RunShellCommand(RunShellCommand {
                command: s(command),
                is_read_only: false,
                uses_pager: false,
                is_risky: false,
                risk_category: 0,
                wait_until_complete: None,
            })),
        })),
    }
}

fn text_message(text: &str) -> TaskMessage {
    TaskMessage {
        id: s("local-agent-output-t"),
        task_id: s("task"),
        request_id: s("request"),
        server_message_data: s(""),
        message: Some(MessageKind::AgentOutput(s(text))),
    }
}

fn added(messages: Vec<TaskMessage>) -> ResponseEvent {
    ResponseEvent::ClientActions(vec![ClientAction::AddMessagesToTask { task_id: s("task"), messages }])
}

fn done() -> ResponseEvent {
    ResponseEvent::Finished(StreamFinished {
        reason: FinishReason::Done,
        should_refresh_model_config: false,
    })
}

#[test]
fn chat_text_and_calls_are_collected() {
    let mut answer = Answer::new();
    assert!(goes_on(answer.accept(chat(vec![choice(Some("Hel"), vec![], None)]))));
    assert!(goes_on(answer.accept(chat(vec![
        choice(Some("lo"), vec![part(0, "run_", "{")], None),
        choice(None, vec![part(0, "shell_command", "}")], Some("stop")),
    ]))));
    assert_eq!(answer.full_text, "Hello");
    assert_eq!(
        answer.pending_tool_calls[&0],
        PendingToolCall { id: s(""), name: s("run_shell_command"), arguments: s("{}") }
    );
}

#[test]
fn chat_stream_ends() {
    let mut answer = Answer::new();
    let end = StreamInput::ChatData { data: s("[DONE]"), decoded: Err(s("no chunk")) };
    assert!(matches!(answer.accept(end), StreamControl::Break));
    assert!(goes_on(answer.accept(chat(vec![]))));
}

#[test]
fn chat_chunk_that_does_not_decode() {
    let mut answer = Answer::new();
    let bad = StreamInput::ChatData { data: s("?"), decoded: Err(s("e")) };
    assert_eq!(words(answer.accept(bad)), "Failed to parse local SSE chunk: e; data=?");
    assert_eq!(answer.full_text, "");
}

#[test]
fn chat_content_filter() {
    let mut answer = Answer::new();
    let blocked = chat(vec![
        choice(Some("a"), vec![], Some("content_filter")),
        choice(Some("b"), vec![], None),
    ]);
    assert_eq!(words(answer.accept(blocked)), "Local model response was blocked by a content filter.");
    assert_eq!(answer.full_text, "a");
}

#[test]
fn failed_stream() {
    let mut answer = Answer::new();
    let control = answer.accept(StreamInput::Failed(AIApiError::ServerOverloaded));
    assert!(matches!(control, StreamControl::Fail(AIApiError::ServerOverloaded)));
}

#[test]
fn messages_text_and_calls_are_collected() {
    let mut answer = Answer::new();
    for text in [
        "",
        r#"{"type":"message_start"}"#,
        r#"{"type":"content_block_start","index":0,"content_block":{"type":"text","text":"Hi "}}"#,
        r#"{"type":"content_block_delta","index":0,"delta":{"type":"text_delta","text":"you"}}"#,
        r#"{"type":"content_block_stop","index":0}"#,
        r#"{"type":"content_block_start","index":1,"content_block":{"type":"tool_use","id":"c","name":"read_skill","input":{}}}"#,
        r#"{"type":"content_block_delta","index":1,"delta":{"type":"input_json_delta","partial_json":"{ \"name\":"}}"#,
        r#"{"type":"content_block_delta","index":1,"delta":{"type":"input_json_delta","partial_json":" \"n\" }"}}"#,
    ] {
        assert!(goes_on(answer.accept(data(text))));
    }
    assert_eq!(answer.full_text, "Hi you");
    assert_eq!(answer.pending_tool_calls.len(), 1);
    assert_eq!(answer.pending_tool_calls[&1].arguments, r#"{ "name": "n" }"#);
    assert!(goes_on(answer.accept(data(r#"{"type":"content_block_stop","index":1}"#))));
    assert_eq!(
        answer.pending_tool_calls[&1],
        PendingToolCall { id: s("c"), name: s("read_skill"), arguments: s(r#"{"name":"n"}"#) }
    );
    assert!(matches!(answer.accept(data(r#"{"type":"message_stop"}"#)), StreamControl::Break));
}

#[test]
fn messages_call_input_at_its_start() {
    let mut answer = Answer::new();
    let start = |input: &str| {
        data(&format!(
            r#"{{"type":"content_block_start","index":2,"content_block":{{"type":"tool_use","id":"","name":"","input":{input}}}}}"#
        ))
    };
    assert!(goes_on(answer.accept(start(r#"{ "b" : true, "a" : [] }"#))));
    assert_eq!(answer.pending_tool_calls[&2].arguments, r#"{"a":[],"b":true}"#);
    assert!(goes_on(answer.accept(start("null"))));
    assert_eq!(answer.pending_tool_calls[&2].arguments, "{}");
    assert!(goes_on(answer.accept(start("{}"))));
    assert_eq!(answer.pending_tool_calls[&2].arguments, "");
    assert!(goes_on(answer.accept(data(r#"{"type":"content_block_stop","index":2}"#))));
    assert_eq!(answer.pending_tool_calls[&2].arguments, "{}");
    assert_eq!(answer.pending_tool_calls[&2].id, "");
}

#[test]
fn messages_call_with_broken_input_keeps_it() {
    let mut answer = Answer::new();
    let input = r#"{"type":"content_block_delta","index":4,"delta":{"type":"input_json_delta","partial_json":" {oops"}}"#;
    assert!(goes_on(answer.accept(data(input))));
    assert!(goes_on(answer.accept(data(r#"{"type":"content_block_stop","index":4}"#))));
    assert_eq!(answer.pending_tool_calls[&4].arguments, " {oops");
}

#[test]
fn messages_failures() {
    let mut answer = Answer::new();
    assert_eq!(
        words(answer.accept(data(r#"{"type":"message_delta","delta":{"stop_reason":"content_filter"}}"#))),
        "Local model response was blocked by a content filter."
    );
    let overloaded = r#"{"type":"error","error":{"type":"overloaded_error","message":"m"}}"#;
    assert!(matches!(
        answer.accept(data(overloaded)),
        StreamControl::Fail(AIApiError::ServerOverloaded)
    ));
    let invalid = r#"{"type":"error","error":{"type":"invalid","message":"m"}}"#;
    assert_eq!(words(answer.accept(data(invalid))), "Anthropic stream error (invalid): m");
    assert!(words(answer.accept(data("?"))).starts_with("Failed to parse anthropic SSE event: "));
    assert!(matches!(provider_error("overloaded_error", ""), AIApiError::ServerOverloaded));
}

#[test]
fn parts_join() {
    let text = |t: &str| {
        data(&format!(r#"{{"type":"content_block_delta","delta":{{"type":"text_delta","text":"{t}"}}}}"#))
    };
    let mut one = Answer::new();
    let mut two = Answer::new();
    assert!(goes_on(one.accept(text("ab"))));
    assert!(goes_on(two.accept(text("a"))));
    assert!(goes_on(two.accept(text("b"))));
    assert_eq!(one.full_text, two.full_text);
}

#[test]
fn response_without_an_answer() {
    let events = Answer::new().finish(vec![], "task", "request").unwrap();
    assert_eq!(events, vec![done()]);
    let mut blank = Answer::new();
    assert!(goes_on(blank.accept(chat(vec![choice(Some(" \n"), vec![], None)]))));
    assert_eq!(blank.finish(vec![], "task", "request").unwrap(), vec![done()]);
}

#[test]
fn response_with_text_and_calls() {
    let mut answer = Answer::new();
    assert!(goes_on(answer.accept(chat(vec![choice(
        Some("On it."),
        vec![
            part(9, "run_shell_command", "{\"command\":\"b\"}"),
            part(5, "web_search", "{}"),
            part(2, "run_shell_command", " {\"command\":\"a\"} "),
        ],
        None,
    )]))));
    let requests = answer.decode_requests();
    assert_eq!(requests.len(), 3);
    assert_eq!(requests[0].as_ref().unwrap().tool, LocalTool::RunShellCommand);
    assert_eq!(requests[0].as_ref().unwrap().arguments, "{\"command\":\"a\"}");
    assert!(requests[1].is_none());
    assert_eq!(requests[2].as_ref().unwrap().arguments, "{\"command\":\"b\"}");
    let events = answer
        .finish_with_ids(vec![run("a"), None, run("b")], "task", "request", &ids(3))
        .unwrap();
    assert_eq!(
        events,
        vec![
            added(vec![
                text_message("On it."),
                call_message("local-tool-call-msg-m0", "local-tool-call-c0", "a"),
                call_message("local-tool-call-msg-m2", "local-tool-call-c2", "b"),
            ]),
            done(),
        ]
    );
}

#[test]
fn response_with_calls_that_are_not_offered_adds_nothing() {
    let mut answer = Answer::new();
    assert!(goes_on(answer.accept(chat(vec![choice(None, vec![part(0, "web_search", "{}")], None)]))));
    assert_eq!(answer.finish_with_ids(vec![None], "task", "request", &ids(1)).unwrap(), vec![done()]);
}

#[test]
fn response_ends_with_the_first_error() {
    let mut answer = Answer::new();
    assert!(goes_on(answer.accept(chat(vec![choice(
        Some("text"),
        vec![
            part(0, "run_shell_command", "{\"command\":\"a\"}"),
            part(1, "run_shell_command", "x"),
            part(2, "read_skill", "y"),
        ],
        None,
    )]))));
    let decoded = vec![run("a"), Some(Err(s("first"))), Some(Err(s("second")))];
    match answer.finish(decoded, "task", "request") {
        Err(AIApiError::Other(text)) => assert_eq!(
            text,
            "Failed to parse arguments for local tool `run_shell_command`: first. arguments=x"
        ),
        found => panic!("another result: {found:?}"),
    }
}

#[test]
fn response_messages_have_random_identifiers() {
    let answer = || {
        let mut answer = Answer::new();
        assert!(goes_on(answer.accept(chat(vec![choice(Some("a"), vec![], None)]))));
        answer.finish(vec![], "task", "request").unwrap()
    };
    let (one, two) = (answer(), answer());
    assert_eq!(one.len(), 2);
    assert_ne!(one[0], two[0]);
}

#[test]
fn single_events() {
    assert_eq!(
        stream_init_event("r"),
        ResponseEvent::Init { request_id: s("r"), conversation_id: s(""), run_id: s("") }
    );
    assert_eq!(stream_finished_done_event(), done());
    assert_eq!(add_messages_event("task", vec![]), added(vec![]));
    assert_eq!(
        agent_output_message_with_id("task", "request", s(" x "), "t"),
        text_message(" x ")
    );
    let made = agent_output_message("task", "request", s("x"));
    assert_eq!(made.id.len(), "local-agent-output-".len() + 36);
    assert_eq!(made.message, Some(MessageKind::AgentOutput(s("x"))));
}

fn config(endpoint_url: &str, api_key: Option<&str>) -> LocalAgentConfig {
    LocalAgentConfig { endpoint_url: s(endpoint_url), model_name: s("model"), api_key: api_key.map(s) }
}

fn query(text: &str) -> AgentInput {
    AgentInput { user_query: Some(s(text)), action_result: None }
}

#[test]
fn request_to_a_chat_endpoint() {
    let params = RequestParams { tasks: vec![], input: vec![query("hi")] };
    let start = local_agent_stream_with_ids(&config("http://h/v1/", Some("k")), &params, s("R"), &vec![]);
    assert_eq!(start.init, stream_init_event("R"));
    assert_eq!(start.request_id, "R");
    assert_eq!(start.task_id, "root-task");
    match start.request {
        ProviderRequest::OpenAI { head, body } => {
            assert_eq!(head.url, "http://h/v1/chat/completions");
            assert_eq!(head.headers[1], (s("authorization"), s("Bearer k")));
            assert_eq!(body.model, "model");
            assert_eq!(body.messages, vec![ChatMessage::user(s("hi"))]);
            assert_eq!(body.tools.len(), 4);
            assert!(body.stream);
        }
        found => panic!("another request: {found:?}"),
    }
}

#[test]
fn request_to_a_messages_endpoint() {
    let tasks = vec![
        Task { id: s("one"), messages: vec![text_message("said")] },
        Task { id: s("two"), messages: vec![] },
    ];
    let params = RequestParams { tasks, input: vec![query("hi")] };
    let start =
        local_agent_stream_with_ids(&config("https://api.anthropic.com", None), &params, s("R"), &vec![s("")]);
    assert_eq!(start.task_id, "one");
    match start.request {
        ProviderRequest::Anthropic { head, body } => {
            assert_eq!(head.url, "https://api.anthropic.com/v1/messages");
            assert_eq!(head.headers.len(), 2);
            assert_eq!(body.model, "model");
            let roles: Vec<&str> = body.messages.iter().map(|m| m.role.as_str()).collect();
            assert_eq!(roles, vec!["assistant", "user"]);
            assert_eq!(body.tools.len(), 4);
            assert_eq!(body.max_tokens, 4096);
            assert!(body.stream);
        }
        found => panic!("another request: {found:?}"),
    }
}

#[test]
fn request_has_a_random_identifier() {
    let params = || RequestParams { tasks: vec![], input: vec![] };
    let one = local_agent_stream(&config("http://h", None), &params());
    let two = local_agent_stream(&config("http://h", None), &params());
    assert_eq!(one.request_id.len(), 36);
    assert_ne!(one.request_id, two.request_id);
    assert_eq!(one.init, stream_init_event(&one.request_id));
}

#[test]
fn stored_answer_is_shown_again() {
    let mut answer = Answer::new();
    assert!(goes_on(answer.accept(chat(vec![choice(
        Some("On it."),
        vec![part(0, " run_shell_command", "{\"command\":\"ls\"}")],
        None,
    )]))));
    let mut events = answer.finish_with_ids(vec![run("ls")], "task", "request", &ids(1)).unwrap();
    let messages = match events.remove(0) {
        ResponseEvent::ClientActions(mut actions) => match actions.remove(0) {
            ClientAction::AddMessagesToTask { messages, .. } => messages,
        },
        found => panic!("another event: {found:?}"),
    };
    let params = RequestParams { tasks: vec![Task { id: s("task"), messages }], input: vec![] };
    let start = local_agent_stream(&config("http://h", None), &params);
    match start.request {
        ProviderRequest::OpenAI { body, .. } => {
            assert_eq!(body.messages[0], ChatMessage::assistant(s("On it.")));
            let call = &body.messages[1].tool_calls.as_ref().unwrap()[0];
            assert_eq!(call.id, "local-tool-call-c0");
            assert_eq!(call.function.name, "run_shell_command");
            assert_eq!(call.function.arguments, r#"{"command":"ls","wait_until_complete":null}"#);
        }
        found => panic!("another request: {found:?}"),
    }
}
