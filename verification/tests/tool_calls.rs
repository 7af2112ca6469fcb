use std::collections::BTreeMap;

use local_agent::api::{
    CallMcpTool, CallMcpToolResult, MessageKind, ReadMcpResource, ReadMcpResourceResult, ReadSkill,
    ReadSkillResult, RunShellCommand, RunShellCommandResult, SkillReference, TaskMessage, Tool, ToolCall,
    ToolCallResult, ToolResult,
};
use local_agent::calls::{
    are_right, decode_request, local_tool_named, merge_tool_call_delta, normalize_partial_tool_input,
    normalize_tool_input_json, parse_tool_args, to_tool_call_message, to_tool_call_message_with_ids,
    tool_from_args, CallIds, CallMcpToolArgs, PendingToolCall, ReadMcpResourceArgs, ReadSkillArgs,
    RunShellCommandArgs, ToolArgs,
};
use local_agent::error::AIApiError;
use local_agent::json::Json;
use local_agent::openai::{ToolCallDelta, ToolCallFunctionDelta};
use local_agent::proto::{ProtoKind, ProtoStruct, ProtoValue};
use local_agent::tools::{
    anthropic_tool_definitions, format_tool_call_result, local_tool_definitions,
    openai_tool_name_from_api_tool, parse_openai_tool_arguments_to_value, parsed_or_empty_object,
    to_openai_tool_call, to_openai_tool_call_with_id, LocalTool,
};

fn s(text: &str) -> String {
    text.to_string()
}

fn other<T: std::fmt::Debug>(result: Result<T, AIApiError>) -> String {
    match result {
        Err(AIApiError::Other(text)) => text,
        found => panic!("another result: {found:?}"),
    }
}

fn shell(command: &str, wait: Option<bool>) -> Tool {
    Tool::RunShellCommand(RunShellCommand {
        command: s(command),
        is_read_only: false,
        uses_pager: false,
        is_risky: false,
        risk_category: 0,
        wait_until_complete: wait,
    })
}

fn call(id: &str, tool: Option<Tool>) -> ToolCall {
    ToolCall { tool_call_id: s(id), tool }
}

fn written(tool: Tool) -> (String, String) {
    let made = to_openai_tool_call_with_id(&call("id", Some(tool)), "unused").unwrap();
    assert_eq!(made.id, "id");
    assert_eq!(made.kind, "function");
    (made.function.name, made.function.arguments)
}

fn pending(id: &str, name: &str, arguments: &str) -> PendingToolCall {
    PendingToolCall { id: s(id), name: s(name), arguments: s(arguments) }
}

fn delta(index: Option<usize>, id: Option<&str>, name: Option<&str>, arguments: Option<&str>) -> ToolCallDelta {
    ToolCallDelta {
        index,
        id: id.map(s),
        function: Some(ToolCallFunctionDelta { name: name.map(s), arguments: arguments.map(s) }),
    }
}

fn is_uuid_v4(text: &str) -> bool {
    let c: Vec<char> = text.chars().collect();
    c.len() == 36
        && c.iter().enumerate().all(|(i, c)| match i {
            8 | 13 | 18 | 23 => *c == '-',
            14 => *c == '4',
            19 => matches!(*c, '8' | '9' | 'a' | 'b'),
            _ => c.is_ascii_digit() || ('a'..='f').contains(c),
        })
}

#[test]
fn tool_names() {
    assert_eq!(openai_tool_name_from_api_tool(&shell("ls", None)), Some("run_shell_command"));
    let mcp = Tool::CallMcpTool(CallMcpTool { name: s("n"), args: None, server_id: s("") });
    assert_eq!(openai_tool_name_from_api_tool(&mcp), Some("call_mcp_tool"));
    let resource = Tool::ReadMcpResource(ReadMcpResource { uri: s("u"), server_id: s("") });
    assert_eq!(openai_tool_name_from_api_tool(&resource), Some("read_mcp_resource"));
    let skill = Tool::ReadSkill(ReadSkill { name: s(""), skill_reference: None });
    assert_eq!(openai_tool_name_from_api_tool(&skill), Some("read_skill"));
    assert_eq!(openai_tool_name_from_api_tool(&Tool::Other), None);
}

#[test]
fn tools_by_name() {
    assert_eq!(local_tool_named("run_shell_command"), Some(LocalTool::RunShellCommand));
    assert_eq!(local_tool_named("call_mcp_tool"), Some(LocalTool::CallMcpTool));
    assert_eq!(local_tool_named("read_mcp_resource"), Some(LocalTool::ReadMcpResource));
    assert_eq!(local_tool_named("read_skill"), Some(LocalTool::ReadSkill));
    assert_eq!(local_tool_named("Read_skill"), None);
    assert_eq!(local_tool_named(""), None);
}

#[test]
fn written_shell_call() {
    assert_eq!(
        written(shell("ls \"a\"", Some(true))),
        (s("run_shell_command"), s(r#"{"command":"ls \"a\"","wait_until_complete":true}"#))
    );
    assert_eq!(
        written(shell("ls", None)).1,
        r#"{"command":"ls","wait_until_complete":null}"#
    );
}

#[test]
fn written_mcp_call() {
    let args = ProtoStruct {
        fields: vec![(s("k"), ProtoValue { kind: Some(ProtoKind::BoolValue(true)) })],
    };
    let tool = Tool::CallMcpTool(CallMcpTool { name: s("n"), args: Some(args), server_id: s("srv") });
    assert_eq!(
        written(tool),
        (s("call_mcp_tool"), s(r#"{"args":{"k":true},"name":"n","server_id":"srv"}"#))
    );
    let bare = Tool::CallMcpTool(CallMcpTool { name: s("n"), args: None, server_id: s("") });
    assert_eq!(written(bare).1, r#"{"args":null,"name":"n","server_id":null}"#);
}

#[test]
fn written_resource_call() {
    let tool = Tool::ReadMcpResource(ReadMcpResource { uri: s("file:///x"), server_id: s("") });
    assert_eq!(
        written(tool),
        (s("read_mcp_resource"), s(r#"{"server_id":null,"uri":"file:///x"}"#))
    );
}

#[test]
fn written_skill_call() {
    let path = Tool::ReadSkill(ReadSkill {
        name: s("n"),
        skill_reference: Some(SkillReference::SkillPath(s("p"))),
    });
    assert_eq!(
        written(path),
        (s("read_skill"), s(r#"{"bundled_skill_id":null,"name":"n","skill_path":"p"}"#))
    );
    let bundled = Tool::ReadSkill(ReadSkill {
        name: s(""),
        skill_reference: Some(SkillReference::BundledSkillId(s("b"))),
    });
    assert_eq!(written(bundled).1, r#"{"bundled_skill_id":"b","name":null,"skill_path":null}"#);
    let none = Tool::ReadSkill(ReadSkill { name: s(""), skill_reference: None });
    assert_eq!(written(none).1, r#"{"bundled_skill_id":null,"name":null,"skill_path":null}"#);
}

#[test]
fn written_call_without_an_identifier() {
    let made = to_openai_tool_call_with_id(&call("", Some(shell("ls", None))), "f").unwrap();
    assert_eq!(made.id, "local-tool-call-f");
    let random = to_openai_tool_call(&call("", Some(shell("ls", None)))).unwrap();
    assert!(is_uuid_v4(random.id.strip_prefix("local-tool-call-").unwrap()));
    let kept = to_openai_tool_call(&call("c", Some(shell("ls", None)))).unwrap();
    assert_eq!(kept.id, "c");
}

#[test]
fn written_call_of_a_tool_that_is_not_offered() {
    assert!(to_openai_tool_call(&call("c", Some(Tool::Other))).is_none());
    assert!(to_openai_tool_call(&call("c", None)).is_none());
}

#[test]
fn written_arguments_read_back() {
    let made = to_openai_tool_call(&call("c", Some(shell("echo '\t'", Some(false))))).unwrap();
    let read = parse_openai_tool_arguments_to_value(&made.function.arguments);
    assert_eq!(read.get_str("command"), Some("echo '\t'"));
    assert_eq!(read.get("wait_until_complete"), Some(&Json::Bool(false)));
}

#[test]
fn arguments_that_are_no_json_are_an_empty_object() {
    assert_eq!(parse_openai_tool_arguments_to_value(" \n"), Json::Object(vec![]));
    assert_eq!(parse_openai_tool_arguments_to_value("{oops"), Json::Object(vec![]));
    assert_eq!(parse_openai_tool_arguments_to_value(" [true] "), Json::Array(vec![Json::Bool(true)]));
    assert_eq!(parsed_or_empty_object(Err(s("e"))), Json::Object(vec![]));
    assert_eq!(parsed_or_empty_object(Ok(Json::Null)), Json::Null);
}

#[test]
fn result_words() {
    let words = |result: Option<ToolResult>| {
        format_tool_call_result(&ToolCallResult { tool_call_id: s("c"), result }, None)
    };
    assert_eq!(
        words(Some(ToolResult::RunShellCommand(Some(RunShellCommandResult::CommandFinished {
            exit_code: -1,
            output: s("out"),
        })))),
        "Command finished with exit code -1:\nout"
    );
    assert_eq!(
        words(Some(ToolResult::RunShellCommand(Some(RunShellCommandResult::CommandFinished {
            exit_code: i32::MIN,
            output: s(""),
        })))),
        "Command finished with exit code -2147483648:\n"
    );
    assert_eq!(
        words(Some(ToolResult::RunShellCommand(Some(RunShellCommandResult::CommandFinished {
            exit_code: 130,
            output: s(""),
        })))),
        "Command finished with exit code 130:\n"
    );
    assert_eq!(
        words(Some(ToolResult::RunShellCommand(Some(
            RunShellCommandResult::LongRunningCommandSnapshot
        )))),
        "Command is still running."
    );
    assert_eq!(
        words(Some(ToolResult::RunShellCommand(Some(RunShellCommandResult::PermissionDenied)))),
        "Command execution was denied."
    );
    assert_eq!(words(Some(ToolResult::RunShellCommand(None))), "Command result received.");
    assert_eq!(
        words(Some(ToolResult::CallMcpTool(Some(CallMcpToolResult::Success { result_count: 12 })))),
        "MCP tool succeeded with 12 result item(s)."
    );
    assert_eq!(
        words(Some(ToolResult::CallMcpTool(Some(CallMcpToolResult::Error { message: s("m") })))),
        "MCP tool failed: m"
    );
    assert_eq!(words(Some(ToolResult::CallMcpTool(None))), "MCP tool result received.");
    assert_eq!(
        words(Some(ToolResult::ReadMcpResource(Some(ReadMcpResourceResult::Success {
            content_count: 0,
        })))),
        "Read 0 MCP resource item(s)."
    );
    assert_eq!(
        words(Some(ToolResult::ReadMcpResource(Some(ReadMcpResourceResult::Error { message: s("m") })))),
        "MCP resource read failed: m"
    );
    assert_eq!(words(Some(ToolResult::ReadMcpResource(None))), "MCP resource result received.");
    assert_eq!(words(Some(ToolResult::Cancel)), "Tool call was cancelled.");
}

#[test]
fn result_words_of_skills() {
    let words = |result: Option<ReadSkillResult>| {
        let result = Some(ToolResult::ReadSkill(result));
        format_tool_call_result(&ToolCallResult { tool_call_id: s("c"), result }, Some("ignored"))
    };
    assert_eq!(words(Some(ReadSkillResult::Success { content: Some(s("text")) })), "text");
    assert_eq!(
        words(Some(ReadSkillResult::Success { content: Some(s("")) })),
        "Skill read successfully."
    );
    assert_eq!(words(Some(ReadSkillResult::Success { content: None })), "Skill read successfully.");
    assert_eq!(words(Some(ReadSkillResult::Error { message: s("m") })), "Skill read failed: m");
    assert_eq!(words(None), "Skill result received.");
}

#[test]
fn result_words_of_other_tools() {
    let result = ToolCallResult { tool_call_id: s("c"), result: Some(ToolResult::Other) };
    assert_eq!(format_tool_call_result(&result, Some("t")), "Result received for tool `t`.");
    assert_eq!(format_tool_call_result(&result, None), "Tool call result received.");
    let missing = ToolCallResult { tool_call_id: s("c"), result: None };
    assert_eq!(format_tool_call_result(&missing, Some("t")), "Result received for tool `t`.");
}

#[test]
fn offered_tools() {
    let tools = local_tool_definitions();
    let names: Vec<&str> = tools.iter().map(|tool| tool.function.name.as_str()).collect();
    assert_eq!(names, vec!["run_shell_command", "call_mcp_tool", "read_mcp_resource", "read_skill"]);
    assert!(tools.iter().all(|tool| tool.kind == "function"));
    assert_eq!(
        tools[0].function.description,
        "Run a shell command in the current terminal session."
    );
    assert_eq!(
        tools[0].function.parameters.to_text(),
        concat_text(&[
            r#"{"additionalProperties":false,"properties":{"command":{"description":"#,
            r#""Shell command to execute.","type":"string"},"wait_until_complete":{"description":"#,
            r#""Whether to wait for command completion before responding.","type":"boolean"}},"#,
            r#""required":["command"],"type":"object"}"#,
        ])
    );
    assert_eq!(
        tools[1].function.parameters.to_text(),
        concat_text(&[
            r#"{"additionalProperties":false,"properties":{"args":{"type":"object"},"#,
            r#""name":{"type":"string"},"server_id":{"type":"string"}},"required":["name"],"type":"object"}"#,
        ])
    );
    assert_eq!(
        tools[2].function.parameters.to_text(),
        concat_text(&[
            r#"{"additionalProperties":false,"properties":{"server_id":{"type":"string"},"#,
            r#""uri":{"type":"string"}},"required":["uri"],"type":"object"}"#,
        ])
    );
    assert_eq!(
        tools[3].function.parameters.to_text(),
        concat_text(&[
            r#"{"additionalProperties":false,"properties":{"bundled_skill_id":{"type":"string"},"#,
            r#""name":{"type":"string"},"skill_path":{"type":"string"}},"type":"object"}"#,
        ])
    );
}

fn concat_text(parts: &[&str]) -> String {
    parts.concat()
}

#[test]
fn offered_tools_for_anthropic() {
    let ours = local_tool_definitions();
    let theirs = anthropic_tool_definitions();
    assert_eq!(theirs.len(), 4);
    for (a, b) in ours.iter().zip(theirs.iter()) {
        assert_eq!(a.function.name, b.name);
        assert_eq!(a.function.description, b.description);
        assert_eq!(a.function.parameters.to_text(), b.input_schema.to_text());
    }
}

#[test]
fn call_parts_merge() {
    let mut calls: BTreeMap<usize, PendingToolCall> = BTreeMap::new();
    merge_tool_call_delta(&mut calls, delta(Some(1), Some("a"), Some("read_"), None));
    merge_tool_call_delta(&mut calls, delta(Some(1), Some(""), Some("skill"), Some("{\"x\"")));
    merge_tool_call_delta(&mut calls, delta(Some(1), None, None, Some(":1}")));
    merge_tool_call_delta(&mut calls, ToolCallDelta { index: Some(1), id: Some(s("b")), function: None });
    assert_eq!(calls.len(), 1);
    assert_eq!(calls[&1], pending("b", "read_skill", "{\"x\":1}"));
}

#[test]
fn call_parts_without_a_place_start_a_call() {
    let mut calls: BTreeMap<usize, PendingToolCall> = BTreeMap::new();
    merge_tool_call_delta(&mut calls, delta(None, Some("a"), Some("x"), None));
    merge_tool_call_delta(&mut calls, delta(None, Some("b"), Some("y"), None));
    assert_eq!(calls[&0], pending("a", "x", ""));
    assert_eq!(calls[&1], pending("b", "y", ""));
}

#[test]
fn call_parts_interleave() {
    let a = || delta(Some(0), None, Some("x"), Some("1"));
    let b = || delta(Some(7), None, Some("y"), Some("2"));
    let mut one: BTreeMap<usize, PendingToolCall> = BTreeMap::new();
    let mut two: BTreeMap<usize, PendingToolCall> = BTreeMap::new();
    merge_tool_call_delta(&mut one, a());
    merge_tool_call_delta(&mut one, b());
    merge_tool_call_delta(&mut two, b());
    merge_tool_call_delta(&mut two, a());
    assert_eq!(one, two);
    let before = one[&0].clone();
    merge_tool_call_delta(&mut one, delta(Some(7), None, None, Some("3")));
    assert_eq!(one[&0], before);
    assert_eq!(one[&7].arguments, "23");
}

#[test]
fn tool_input_text() {
    assert_eq!(normalize_tool_input_json(&Json::Null), "{}");
    assert_eq!(normalize_tool_input_json(&Json::Array(vec![Json::Null])), "[null]");
    assert_eq!(normalize_partial_tool_input("  "), Some(s("{}")));
    assert_eq!(normalize_partial_tool_input(" null "), Some(s("{}")));
    assert_eq!(normalize_partial_tool_input(" { \"b\" : 1 , \"a\" : [ ] } "), Some(s(r#"{"a":[],"b":1}"#)));
    assert_eq!(normalize_partial_tool_input("{\"a\""), None);
}

#[test]
fn tool_input_that_is_written_anew_says_the_same() {
    let raw = " { \"n\" : [ -3 , 12 ] , \"s\" : \"\\u00e9\" } ";
    let text = normalize_partial_tool_input(raw).unwrap();
    assert_eq!(Json::parse(&text).unwrap(), Json::parse(raw).unwrap());
    assert_ne!(text, raw);
}

#[test]
fn tool_input_written_anew_twice_is_written_anew_once() {
    for raw in ["", " \n", " null ", "{}", " [ 1 , -2 ] ", "{\"b\":{},\"a\":18446744073709551615}", " \"x \" "] {
        let once = normalize_partial_tool_input(raw).unwrap();
        assert_eq!(once.trim(), once);
        assert!(!once.is_empty());
        assert_eq!(normalize_partial_tool_input(&once), Some(once.clone()));
        assert!(Json::parse(&once).is_ok());
    }
}

#[test]
fn what_is_to_be_decoded() {
    let request = decode_request(&pending("", " run_shell_command\n", " {\"command\":\"ls\"} ")).unwrap();
    assert_eq!(request.tool, LocalTool::RunShellCommand);
    assert_eq!(request.arguments, "{\"command\":\"ls\"}");
    let empty = decode_request(&pending("", "read_skill", " \t")).unwrap();
    assert_eq!(empty.arguments, "{}");
    assert!(decode_request(&pending("", "", "{}")).is_none());
    assert!(decode_request(&pending("", "other", "{}")).is_none());
}

#[test]
fn arguments_that_do_not_decode() {
    assert_eq!(
        other(parse_tool_args("read_skill", " x ", Err(s("expected value at line 1 column 1")))),
        "Failed to parse arguments for local tool `read_skill`: expected value at line 1 column 1. arguments=x"
    );
    assert_eq!(
        other(parse_tool_args("t", "  ", Err(s("missing field")))),
        "Failed to parse arguments for local tool `t`: missing field. arguments={}"
    );
    let args = ToolArgs::RunShellCommand(RunShellCommandArgs { command: s("ls"), wait_until_complete: None });
    assert!(matches!(parse_tool_args("t", "", Ok(args)), Ok(ToolArgs::RunShellCommand(_))));
}

#[test]
fn tools_from_arguments() {
    let run = ToolArgs::RunShellCommand(RunShellCommandArgs { command: s("ls"), wait_until_complete: Some(true) });
    assert_eq!(tool_from_args(run).unwrap(), shell("ls", Some(true)));
    let mcp = ToolArgs::CallMcpTool(CallMcpToolArgs {
        name: s("n"),
        args: Some(Json::parse(r#"{"k":null}"#).unwrap()),
        server_id: None,
    });
    assert_eq!(
        tool_from_args(mcp).unwrap(),
        Tool::CallMcpTool(CallMcpTool {
            name: s("n"),
            args: Some(ProtoStruct {
                fields: vec![(s("k"), ProtoValue { kind: Some(ProtoKind::NullValue(0)) })],
            }),
            server_id: s(""),
        })
    );
    let resource = ToolArgs::ReadMcpResource(ReadMcpResourceArgs { uri: s("u"), server_id: Some(s("x")) });
    assert_eq!(
        tool_from_args(resource).unwrap(),
        Tool::ReadMcpResource(ReadMcpResource { uri: s("u"), server_id: s("x") })
    );
}

#[test]
fn mcp_arguments_that_are_no_object() {
    let mcp = ToolArgs::CallMcpTool(CallMcpToolArgs {
        name: s("n"),
        args: Some(Json::Str(s("x"))),
        server_id: None,
    });
    assert_eq!(
        other(tool_from_args(mcp)),
        "Expected MCP `args` to be a JSON object, got: \"x\""
    );
}

#[test]
fn arguments_are_right_where_they_make_a_tool() {
    let mcp = |args: Option<Json>| {
        ToolArgs::CallMcpTool(CallMcpToolArgs { name: s("n"), args, server_id: None })
    };
    let skill = |path: Option<&str>, id: Option<&str>| {
        ToolArgs::ReadSkill(ReadSkillArgs { name: None, skill_path: path.map(s), bundled_skill_id: id.map(s) })
    };
    for (args, right) in [
        (mcp(None), true),
        (mcp(Some(Json::Object(vec![]))), true),
        (mcp(Some(Json::Null)), false),
        (skill(Some("p"), None), true),
        (skill(Some(""), Some("b")), true),
        (skill(Some(""), Some("")), false),
        (skill(None, None), false),
    ] {
        assert_eq!(are_right(&args), right);
        assert_eq!(tool_from_args(args).is_ok(), right);
    }
}

#[test]
fn skills_by_path_or_by_bundled_name() {
    let skill = |path: Option<&str>, id: Option<&str>| {
        tool_from_args(ToolArgs::ReadSkill(ReadSkillArgs {
            name: None,
            skill_path: path.map(s),
            bundled_skill_id: id.map(s),
        }))
    };
    let reference = |reference| Tool::ReadSkill(ReadSkill { name: s(""), skill_reference: Some(reference) });
    assert_eq!(skill(Some("p"), Some("b")).unwrap(), reference(SkillReference::SkillPath(s("p"))));
    assert_eq!(skill(Some(""), Some("b")).unwrap(), reference(SkillReference::BundledSkillId(s("b"))));
    assert_eq!(
        other(skill(Some(""), None)),
        "Tool `read_skill` requires either `skill_path` or `bundled_skill_id`."
    );
}

fn run_args(command: &str) -> Option<Result<ToolArgs, String>> {
    Some(Ok(ToolArgs::RunShellCommand(RunShellCommandArgs {
        command: s(command),
        wait_until_complete: None,
    })))
}

fn decoded_again(tool: LocalTool, text: &str) -> ToolArgs {
    let json = Json::parse(text).unwrap();
    let text_of = |key: &str| json.get_str(key).map(s);
    match tool {
        LocalTool::RunShellCommand => ToolArgs::RunShellCommand(RunShellCommandArgs {
            command: text_of("command").unwrap(),
            wait_until_complete: match json.get("wait_until_complete") {
                Some(Json::Bool(wait)) => Some(*wait),
                _ => None,
            },
        }),
        LocalTool::CallMcpTool => ToolArgs::CallMcpTool(CallMcpToolArgs {
            name: text_of("name").unwrap(),
            args: json.get("args").filter(|args| !args.is_null()).cloned(),
            server_id: text_of("server_id"),
        }),
        LocalTool::ReadMcpResource => ToolArgs::ReadMcpResource(ReadMcpResourceArgs {
            uri: text_of("uri").unwrap(),
            server_id: text_of("server_id"),
        }),
        LocalTool::ReadSkill => ToolArgs::ReadSkill(ReadSkillArgs {
            name: text_of("name"),
            skill_path: text_of("skill_path"),
            bundled_skill_id: text_of("bundled_skill_id"),
        }),
    }
}

#[test]
fn stored_call_written_and_read_again_is_the_stored_call() {
    let skill = |name: &str, reference| Tool::ReadSkill(ReadSkill { name: s(name), skill_reference: Some(reference) });
    let args = || ProtoStruct {
        fields: vec![
            (s("a"), ProtoValue { kind: Some(ProtoKind::StringValue(s("x"))) }),
            (s("b"), ProtoValue { kind: Some(ProtoKind::NullValue(0)) }),
        ],
    };
    let tools: Vec<fn() -> Tool> = vec![
        || shell("ls -l", Some(false)),
        || shell("", None),
        || Tool::CallMcpTool(CallMcpTool { name: s("n"), args: None, server_id: s("") }),
        || Tool::ReadMcpResource(ReadMcpResource { uri: s("u"), server_id: s("x") }),
    ];
    let mut calls: Vec<(ToolCall, ToolCall)> =
        tools.iter().map(|tool| (call("c", Some(tool())), call("c", Some(tool())))).collect();
    calls.push((
        call("c", Some(skill("n", SkillReference::SkillPath(s("p"))))),
        call("c", Some(skill("n", SkillReference::SkillPath(s("p"))))),
    ));
    calls.push((
        call("c", Some(skill("", SkillReference::BundledSkillId(s("b"))))),
        call("c", Some(skill("", SkillReference::BundledSkillId(s("b"))))),
    ));
    let mcp = || Tool::CallMcpTool(CallMcpTool { name: s("n"), args: Some(args()), server_id: s("x") });
    calls.push((call("c", Some(mcp())), call("c", Some(mcp()))));
    for (stored, same) in calls {
        let written = to_openai_tool_call(&stored).unwrap();
        let again = pending(&written.id, &written.function.name, &written.function.arguments);
        let request = decode_request(&again).unwrap();
        assert_eq!(request.arguments, written.function.arguments);
        let decoded = decoded_again(request.tool, &request.arguments);
        let made = to_tool_call_message(again, Some(Ok(decoded)), "t", "r").unwrap().unwrap();
        assert_eq!(made.message, Some(MessageKind::ToolCall(same)));
    }
}

#[test]
fn call_becomes_a_message() {
    let ids = CallIds { call: s("C"), message: s("M") };
    let made = to_tool_call_message_with_ids(
        pending("given", " run_shell_command ", "{}"),
        run_args("ls"),
        "task",
        "request",
        &ids,
    );
    assert_eq!(
        made.unwrap().unwrap(),
        TaskMessage {
            id: s("local-tool-call-msg-M"),
            task_id: s("task"),
            request_id: s("request"),
            server_message_data: s(""),
            message: Some(MessageKind::ToolCall(call("given", Some(shell("ls", None))))),
        }
    );
    let made = to_tool_call_message_with_ids(
        pending("  ", "run_shell_command", "{}"),
        run_args("ls"),
        "task",
        "request",
        &ids,
    );
    assert_eq!(
        made.unwrap().unwrap().message,
        Some(MessageKind::ToolCall(call("local-tool-call-C", Some(shell("ls", None)))))
    );
}

#[test]
fn call_becomes_a_message_with_random_identifiers() {
    let made = to_tool_call_message(pending("", "run_shell_command", "{}"), run_args("ls"), "t", "r");
    let message = made.unwrap().unwrap();
    assert!(is_uuid_v4(message.id.strip_prefix("local-tool-call-msg-").unwrap()));
    match message.message {
        Some(MessageKind::ToolCall(call)) => {
            assert!(is_uuid_v4(call.tool_call_id.strip_prefix("local-tool-call-").unwrap()))
        }
        found => panic!("another message: {found:?}"),
    }
}

#[test]
fn call_that_becomes_no_message() {
    assert!(to_tool_call_message(pending("c", " ", "{}"), None, "t", "r").unwrap().is_none());
    assert!(to_tool_call_message(pending("c", "web_search", "{}"), None, "t", "r").unwrap().is_none());
    assert!(to_tool_call_message(pending("c", "read_skill", "{}"), None, "t", "r").unwrap().is_none());
}

#[test]
fn call_with_arguments_that_are_not_right() {
    let made = to_tool_call_message(
        pending("c", "run_shell_command", "[]"),
        Some(Err(s("invalid type"))),
        "t",
        "r",
    );
    assert_eq!(
        other(made),
        "Failed to parse arguments for local tool `run_shell_command`: invalid type. arguments=[]"
    );
}
