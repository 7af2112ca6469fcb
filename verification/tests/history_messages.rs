use local_agent::anthropic::ContentBlock;
use local_agent::api::{
    ActionResult, AgentInput, MessageKind, RequestParams, RunShellCommand, RunShellCommandResult, Task,
    TaskMessage, Tool, ToolCall, ToolCallResult, ToolResult,
};
use local_agent::history::{
    anthropic_message_from_chat_message, anthropic_messages_from_chat_messages, extract_chat_messages,
    extract_chat_messages_with_ids, to_chat_message_for_current_input, tool_names_by_call_id,
};
use local_agent::json::Json;
use local_agent::openai::{ChatMessage, ChatToolCall, ChatToolCallFunction};

fn s(text: &str) -> String {
    text.to_string()
}

fn message(kind: MessageKind) -> TaskMessage {
    TaskMessage {
        id: s("m"),
        task_id: s("t"),
        request_id: s("r"),
        server_message_data: s(""),
        message: Some(kind),
    }
}

fn query(text: &str) -> AgentInput {
    AgentInput { user_query: Some(s(text)), action_result: None }
}

fn params(tasks: Vec<(&str, Vec<TaskMessage>)>, input: Vec<AgentInput>) -> RequestParams {
    let tasks = tasks.into_iter().map(|(id, messages)| Task { id: s(id), messages }).collect();
    RequestParams { tasks, input }
}

fn shell_call(id: &str, command: &str) -> MessageKind {
    MessageKind::ToolCall(ToolCall {
        tool_call_id: s(id),
        tool: Some(Tool::RunShellCommand(RunShellCommand {
            command: s(command),
            is_read_only: false,
            uses_pager: false,
            is_risky: false,
            risk_category: 0,
            wait_until_complete: None,
        })),
    })
}

fn result(id: &str, result: Option<ToolResult>) -> MessageKind {
    MessageKind::ToolCallResult(ToolCallResult { tool_call_id: s(id), result })
}

fn shown_call(id: &str, command: &str) -> ChatMessage {
    ChatMessage::assistant_tool_calls(vec![ChatToolCall {
        id: s(id),
        kind: s("function"),
        function: ChatToolCallFunction {
            name: s("run_shell_command"),
            arguments: format!(r#"{{"command":"{command}","wait_until_complete":null}}"#),
        },
    }])
}

#[test]
fn nothing_to_show_is_a_word_to_go_on() {
    assert_eq!(extract_chat_messages(&params(vec![], vec![]), "t"), vec![ChatMessage::user(s("Continue"))]);
}

#[test]
fn history_in_order() {
    let finished = ToolResult::RunShellCommand(Some(RunShellCommandResult::CommandFinished {
        exit_code: 0,
        output: s("a"),
    }));
    let p = params(
        vec![(
            "t",
            vec![
                message(MessageKind::UserQuery(s("list"))),
                message(MessageKind::UserQuery(s(""))),
                message(MessageKind::AgentOutput(s(" \n"))),
                message(MessageKind::AgentOutput(s(" sure "))),
                message(MessageKind::Other),
                TaskMessage { message: None, ..message(MessageKind::Other) },
                message(shell_call("c", "ls")),
                message(result("c", Some(finished))),
                message(result("", Some(ToolResult::Cancel))),
            ],
        )],
        vec![query("more")],
    );
    assert_eq!(
        extract_chat_messages(&p, "t"),
        vec![
            ChatMessage::user(s("list")),
            ChatMessage::assistant(s(" sure ")),
            shown_call("c", "ls"),
            ChatMessage::tool(s("c"), s("Command finished with exit code 0:\na")),
            ChatMessage::user(s("more")),
        ]
    );
}

#[test]
fn history_of_the_current_task() {
    let tasks = || {
        vec![
            ("a", vec![message(MessageKind::UserQuery(s("first")))]),
            ("b", vec![message(MessageKind::UserQuery(s("second")))]),
            ("b", vec![message(MessageKind::UserQuery(s("third")))]),
        ]
    };
    assert_eq!(extract_chat_messages(&params(tasks(), vec![]), "b"), vec![ChatMessage::user(s("second"))]);
    assert_eq!(extract_chat_messages(&params(tasks(), vec![]), "z"), vec![ChatMessage::user(s("first"))]);
}

#[test]
fn results_of_other_tools_go_by_the_name_of_their_call() {
    let p = params(
        vec![(
            "t",
            vec![
                message(result("c", Some(ToolResult::Other))),
                message(shell_call("c", "ls")),
                message(result("d", None)),
            ],
        )],
        vec![],
    );
    assert_eq!(
        extract_chat_messages(&p, "t"),
        vec![
            ChatMessage::tool(s("c"), s("Result received for tool `run_shell_command`.")),
            shown_call("c", "ls"),
            ChatMessage::tool(s("d"), s("Tool call result received.")),
        ]
    );
}

#[test]
fn names_by_call() {
    let task = Task {
        id: s("t"),
        messages: vec![
            message(shell_call("c", "ls")),
            message(MessageKind::ToolCall(ToolCall { tool_call_id: s("d"), tool: Some(Tool::Other) })),
            message(MessageKind::ToolCall(ToolCall { tool_call_id: s("e"), tool: None })),
        ],
    };
    let names = tool_names_by_call_id(&task);
    assert_eq!(names.get("c"), Some(&s("run_shell_command")));
    assert_eq!(names.get("d"), None);
    assert_eq!(names.get("e"), None);
    assert_eq!(names.len(), 1);
}

#[test]
fn calls_without_an_identifier_get_one() {
    let p = params(vec![("t", vec![message(shell_call("", "ls"))])], vec![]);
    assert_eq!(
        extract_chat_messages_with_ids(&p, "t", &vec![s("F")]),
        vec![shown_call("local-tool-call-F", "ls")]
    );
    let made = extract_chat_messages(&p, "t");
    let id = &made[0].tool_calls.as_ref().unwrap()[0].id;
    assert_eq!(id.len(), "local-tool-call-".len() + 36);
    assert!(id.starts_with("local-tool-call-"));
}

#[test]
fn new_inputs() {
    assert_eq!(to_chat_message_for_current_input(&query("q")), Some(ChatMessage::user(s("q"))));
    let action = AgentInput {
        user_query: None,
        action_result: Some(ActionResult { id: s("c"), result: s("done") }),
    };
    assert_eq!(
        to_chat_message_for_current_input(&action),
        Some(ChatMessage::tool(s("c"), s("done")))
    );
    let nothing = AgentInput { user_query: None, action_result: None };
    assert_eq!(to_chat_message_for_current_input(&nothing), None);
}

#[test]
fn new_input_that_repeats_the_last_message_is_left_out() {
    let p = params(
        vec![("t", vec![message(MessageKind::UserQuery(s("q")))])],
        vec![query("q"), query("r"), query("r"), query("q")],
    );
    assert_eq!(
        extract_chat_messages(&p, "t"),
        vec![ChatMessage::user(s("q")), ChatMessage::user(s("r")), ChatMessage::user(s("q"))]
    );
}

#[test]
fn repeated_history_is_kept() {
    let twice = vec![
        message(MessageKind::UserQuery(s("q"))),
        message(MessageKind::UserQuery(s("q"))),
    ];
    assert_eq!(
        extract_chat_messages(&params(vec![("t", twice)], vec![]), "t"),
        vec![ChatMessage::user(s("q")), ChatMessage::user(s("q"))]
    );
}

#[test]
fn anthropic_user_and_assistant() {
    let user = anthropic_message_from_chat_message(&ChatMessage::user(s("q"))).unwrap();
    assert_eq!(user.role, "user");
    assert!(matches!(&user.content[..], [ContentBlock::Text { text }] if text == "q"));
    let assistant = anthropic_message_from_chat_message(&ChatMessage::assistant(s("a"))).unwrap();
    assert_eq!(assistant.role, "assistant");
    assert!(matches!(&assistant.content[..], [ContentBlock::Text { text }] if text == "a"));
}

#[test]
fn anthropic_passes_over_what_says_nothing() {
    let odd = ChatMessage { role: s("system"), ..ChatMessage::user(s("x")) };
    let silent = ChatMessage { content: None, ..ChatMessage::user(s("")) };
    let made = anthropic_messages_from_chat_messages(&vec![
        ChatMessage::user(s(" ")),
        ChatMessage::assistant(s("\n")),
        ChatMessage::assistant_tool_calls(vec![]),
        ChatMessage::tool(s(" "), s("x")),
        odd,
        silent,
        ChatMessage::user(s("q")),
    ]);
    assert_eq!(made.len(), 1);
    assert!(matches!(&made[0].content[..], [ContentBlock::Text { text }] if text == "q"));
}

#[test]
fn anthropic_calls_and_results() {
    let call = ChatMessage { content: Some(s("look")), ..shown_call("c", "ls") };
    let made = anthropic_messages_from_chat_messages(&vec![call, ChatMessage::tool(s("c"), s(""))]);
    assert_eq!(made.len(), 2);
    assert_eq!(made[0].role, "assistant");
    match &made[0].content[..] {
        [ContentBlock::Text { text }, ContentBlock::ToolUse { id, name, input }] => {
            assert_eq!(text, "look");
            assert_eq!(id, "c");
            assert_eq!(name, "run_shell_command");
            assert_eq!(input.get_str("command"), Some("ls"));
            assert_eq!(input.get("wait_until_complete"), Some(&Json::Null));
        }
        found => panic!("other blocks: {found:?}"),
    }
    assert_eq!(made[1].role, "user");
    assert!(matches!(
        &made[1].content[..],
        [ContentBlock::ToolResult { tool_use_id, content }] if tool_use_id == "c" && content.is_empty()
    ));
}
