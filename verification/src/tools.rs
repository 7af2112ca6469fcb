//! The tools that the local provider offers: their definitions, their calls as the model
//! writes them and as the client runs them, and the words for their results.
use vstd::prelude::*;

use crate::anthropic;
use crate::api::{
    CallMcpToolResult, CallMcpToolResultView, ReadMcpResourceResult, ReadMcpResourceResultView,
    ReadSkillResult, ReadSkillResultView, RunShellCommandResult, RunShellCommandResultView,
    SkillReference, SkillReferenceView, Tool, ToolCall, ToolCallResult, ToolCallResultView,
    ToolCallView, ToolResult, ToolResultView, ToolView,
};
use crate::error::result_view;
use crate::ids::{is_uuid_v4, new_uuid};
use crate::json::{
    doubleless, exact_within, json_fields, json_items, json_parse, json_text, nests_within, Json,
    JsonView,
};
use crate::openai::{
    ChatToolCall, ChatToolCallFunction, ChatToolCallFunctionView, ChatToolCallView, ToolDefinition,
    ToolDefinitionView,
};
use crate::proto::{fields_to_json, json_tells, prost_struct_to_json, ProtoView};
use crate::text::{decimal, decimal_text, signed_decimal, signed_decimal_text, trimmed};

verus! {

pub const RUN_SHELL_COMMAND_TOOL_NAME: &'static str = "run_shell_command";

pub const CALL_MCP_TOOL_NAME: &'static str = "call_mcp_tool";

pub const READ_MCP_RESOURCE_TOOL_NAME: &'static str = "read_mcp_resource";

pub const READ_SKILL_TOOL_NAME: &'static str = "read_skill";

/// A tool that the local provider offers.
#[derive(Debug, Clone, Copy, PartialEq, Eq, Structural)]
pub enum LocalTool {
    RunShellCommand,
    CallMcpTool,
    ReadMcpResource,
    ReadSkill,
}

/// The name of a tool.
pub open spec fn local_tool_name(tool: LocalTool) -> Seq<char> {
    match tool {
        LocalTool::RunShellCommand => RUN_SHELL_COMMAND_TOOL_NAME@,
        LocalTool::CallMcpTool => CALL_MCP_TOOL_NAME@,
        LocalTool::ReadMcpResource => READ_MCP_RESOURCE_TOOL_NAME@,
        LocalTool::ReadSkill => READ_SKILL_TOOL_NAME@,
    }
}

/// The offered tool that a call is for.
pub open spec fn local_tool(tool: ToolView) -> Option<LocalTool> {
    match tool {
        ToolView::RunShellCommand(_) => Some(LocalTool::RunShellCommand),
        ToolView::CallMcpTool(_) => Some(LocalTool::CallMcpTool),
        ToolView::ReadMcpResource(_) => Some(LocalTool::ReadMcpResource),
        ToolView::ReadSkill(_) => Some(LocalTool::ReadSkill),
        ToolView::Other => None,
    }
}

/// The name of the offered tool that a call is for.
pub open spec fn tool_name_of(tool: ToolView) -> Option<Seq<char>> {
    match local_tool(tool) {
        Some(tool) => Some(local_tool_name(tool)),
        None => None,
    }
}

/// The name of the offered tool that a call is for.
pub fn openai_tool_name_from_api_tool(tool: &Tool) -> (r: Option<&'static str>)
    ensures
        r.deep_view() == tool_name_of(tool.deep_view()),
{
    match tool {
        Tool::RunShellCommand(_) => Some(RUN_SHELL_COMMAND_TOOL_NAME),
        Tool::CallMcpTool(_) => Some(CALL_MCP_TOOL_NAME),
        Tool::ReadMcpResource(_) => Some(READ_MCP_RESOURCE_TOOL_NAME),
        Tool::ReadSkill(_) => Some(READ_SKILL_TOOL_NAME),
        Tool::Other => None,
    }
}

/// A string, or null where it is empty.
pub open spec fn filled_or_null(text: Seq<char>) -> JsonView {
    if text.len() == 0 {
        JsonView::Null
    } else {
        JsonView::Str(text)
    }
}

/// The arguments of a call as the model writes them: what the call does not say is null.
pub open spec fn tool_arguments(tool: ToolView) -> Option<JsonView> {
    match tool {
        ToolView::RunShellCommand(run) => Some(
            JsonView::Object(
                map![
                    "command"@ => JsonView::Str(run.command),
                    "wait_until_complete"@ => match run.wait_until_complete {
                        Some(wait) => JsonView::Bool(wait),
                        None => JsonView::Null,
                    },
                ],
            ),
        ),
        ToolView::CallMcpTool(call) => Some(
            JsonView::Object(
                map![
                    "name"@ => JsonView::Str(call.name),
                    "args"@ => match call.args {
                        Some(fields) => JsonView::Object(fields_to_json(fields)),
                        None => JsonView::Null,
                    },
                    "server_id"@ => filled_or_null(call.server_id),
                ],
            ),
        ),
        ToolView::ReadMcpResource(read) => Some(
            JsonView::Object(
                map![
                    "uri"@ => JsonView::Str(read.uri),
                    "server_id"@ => filled_or_null(read.server_id),
                ],
            ),
        ),
        ToolView::ReadSkill(read) => Some(
            JsonView::Object(
                map![
                    "name"@ => filled_or_null(read.name),
                    "skill_path"@ => match read.skill_reference {
                        Some(SkillReferenceView::SkillPath(path)) => JsonView::Str(path),
                        _ => JsonView::Null,
                    },
                    "bundled_skill_id"@ => match read.skill_reference {
                        Some(SkillReferenceView::BundledSkillId(id)) => JsonView::Str(id),
                        _ => JsonView::Null,
                    },
                ],
            ),
        ),
        ToolView::Other => None,
    }
}

/// Whether the arguments of a tool tell all that its call says. They do not tell the marks of
/// a shell command, which a model's call leaves at their defaults, nor a skill that is not
/// named, nor what JSON cannot tell of a protobuf struct.
pub open spec fn arguments_tell(tool: ToolView) -> bool {
    match tool {
        ToolView::RunShellCommand(run) => {
            &&& !run.is_read_only
            &&& !run.uses_pager
            &&& !run.is_risky
            &&& run.risk_category == 0
        },
        ToolView::CallMcpTool(call) => call.args matches Some(fields) ==> json_tells(
            ProtoView::Struct(fields),
        ),
        ToolView::ReadMcpResource(_) => true,
        ToolView::ReadSkill(read) => match read.skill_reference {
            Some(SkillReferenceView::SkillPath(path)) => path.len() > 0,
            Some(SkillReferenceView::BundledSkillId(id)) => id.len() > 0,
            None => false,
        },
        ToolView::Other => false,
    }
}

/// Adds an entry to an object.
fn add_field(entries: &mut Vec<(String, Json)>, key: &str, value: Json)
    ensures
        json_fields(final(entries)@) == json_fields(old(entries)@).insert(key@, value.deep_view()),
{
    entries.push((key.to_string(), value));
    assert(entries@.drop_last() =~= old(entries)@);
}

fn filled(text: &String) -> (r: Json)
    ensures
        r.deep_view() == filled_or_null(text@),
{
    if text.as_str().is_empty() {
        Json::Null
    } else {
        Json::Str(text.clone())
    }
}

/// The arguments of a call as the model writes them.
pub fn tool_call_arguments(tool: &Tool) -> (r: Option<Json>)
    ensures
        r.deep_view() == tool_arguments(tool.deep_view()),
{
    let mut entries: Vec<(String, Json)> = Vec::new();
    match tool {
        Tool::RunShellCommand(run) => {
            let wait = match run.wait_until_complete {
                Some(wait) => Json::Bool(wait),
                None => Json::Null,
            };
            add_field(&mut entries, "command", Json::Str(run.command.clone()));
            add_field(&mut entries, "wait_until_complete", wait);
        },
        Tool::CallMcpTool(call) => {
            let args = match &call.args {
                Some(args) => prost_struct_to_json(args),
                None => Json::Null,
            };
            add_field(&mut entries, "name", Json::Str(call.name.clone()));
            add_field(&mut entries, "args", args);
            add_field(&mut entries, "server_id", filled(&call.server_id));
        },
        Tool::ReadMcpResource(read) => {
            add_field(&mut entries, "uri", Json::Str(read.uri.clone()));
            add_field(&mut entries, "server_id", filled(&read.server_id));
        },
        Tool::ReadSkill(read) => {
            let (path, id) = match &read.skill_reference {
                Some(SkillReference::SkillPath(path)) => (Json::Str(path.clone()), Json::Null),
                Some(SkillReference::BundledSkillId(id)) => (Json::Null, Json::Str(id.clone())),
                None => (Json::Null, Json::Null),
            };
            add_field(&mut entries, "name", filled(&read.name));
            add_field(&mut entries, "skill_path", path);
            add_field(&mut entries, "bundled_skill_id", id);
        },
        Tool::Other => return None,
    }
    Some(Json::Object(entries))
}

/// A call of a function, with its arguments as JSON text.
pub open spec fn function_call_view(
    id: Seq<char>,
    name: Seq<char>,
    arguments: Seq<char>,
) -> ChatToolCallView {
    ChatToolCallView {
        id,
        kind: "function"@,
        function: ChatToolCallFunctionView { name, arguments },
    }
}

/// A call of a function, with its arguments as JSON text.
pub fn function_call(id: String, name: &str, arguments: String) -> (r: ChatToolCall)
    ensures
        r.deep_view() == function_call_view(id@, name@, arguments@),
{
    ChatToolCall {
        id,
        kind: "function".to_string(),
        function: ChatToolCallFunction { name: name.to_string(), arguments },
    }
}

/// The identifier of a call: its own, or one made from `fresh` where it has none.
pub open spec fn call_id(id: Seq<char>, fresh: Seq<char>) -> Seq<char> {
    if id.len() == 0 {
        "local-tool-call-"@ + fresh
    } else {
        id
    }
}

/// A call as the model writes it, for a tool that is offered; `fresh` is the identifier
/// of a call that has none.
pub open spec fn openai_call(call: ToolCallView, fresh: Seq<char>) -> Option<ChatToolCallView> {
    match call.tool {
        Some(tool) => match (tool_name_of(tool), tool_arguments(tool)) {
            (Some(name), Some(arguments)) => Some(
                function_call_view(call_id(call.tool_call_id, fresh), name, json_text(arguments)),
            ),
            _ => None,
        },
        None => None,
    }
}

/// Whether the arguments that are written for a call are text without white space at its
/// ends that is read back as they are. It is where they hold no double and are nested no
/// deeper than the parser goes.
pub open spec fn reads_back(call: ToolCallView, written: Option<ChatToolCallView>) -> bool {
    written matches Some(written) ==> {
        let text = written.function.arguments;
        &&& text.len() > 0
        &&& trimmed(text) == text
        &&& tool_arguments(call.tool->0) matches Some(arguments)
        &&& exact_within(arguments, 127) ==> arguments_value(text) == arguments
    }
}

/// A call as the model writes it, with `fresh` for the identifier of a call that has none.
pub fn to_openai_tool_call_with_id(tool_call: &ToolCall, fresh: &str) -> (r: Option<ChatToolCall>)
    ensures
        r.deep_view() == openai_call(tool_call.deep_view(), fresh@),
        reads_back(tool_call.deep_view(), r.deep_view()),
{
    let tool = match &tool_call.tool {
        Some(tool) => tool,
        None => return None,
    };
    let id = if tool_call.tool_call_id.as_str().is_empty() {
        let mut id = "local-tool-call-".to_string();
        id.append(fresh);
        id
    } else {
        tool_call.tool_call_id.clone()
    };
    match (openai_tool_name_from_api_tool(tool), tool_call_arguments(tool)) {
        (Some(name), Some(arguments)) => Some(function_call(id, name, arguments.to_text())),
        _ => None,
    }
}

/// A call as the model writes it. One that has no identifier gets a random one.
pub fn to_openai_tool_call(tool_call: &ToolCall) -> (r: Option<ChatToolCall>)
    ensures
        exists|fresh: Seq<char>|
            is_uuid_v4(fresh) && r.deep_view() == #[trigger] openai_call(
                tool_call.deep_view(),
                fresh,
            ),
        reads_back(tool_call.deep_view(), r.deep_view()),
{
    let fresh = new_uuid();
    to_openai_tool_call_with_id(tool_call, fresh.as_str())
}

/// The value of a call's arguments: that of their text, and an empty object where the text
/// is blank or no JSON.
pub open spec fn arguments_value(arguments: Seq<char>) -> JsonView {
    let text = trimmed(arguments);
    if text.len() == 0 {
        JsonView::Object(Map::empty())
    } else {
        value_or_empty(json_parse(text))
    }
}

/// A parsed value, and an empty object where nothing was parsed.
pub open spec fn value_or_empty(parsed: Result<JsonView, Seq<char>>) -> JsonView {
    match parsed {
        Ok(value) => value,
        Err(_) => JsonView::Object(Map::empty()),
    }
}

/// A parsed value, and an empty object where nothing was parsed.
pub fn parsed_or_empty_object(parsed: Result<Json, String>) -> (r: Json)
    ensures
        r.deep_view() == value_or_empty(result_view(parsed)),
{
    match parsed {
        Ok(value) => value,
        Err(_) => Json::Object(Vec::new()),
    }
}

/// The value of a call's arguments.
pub fn parse_openai_tool_arguments_to_value(arguments: &str) -> (r: Json)
    ensures
        r.deep_view() == arguments_value(arguments@),
{
    let text = arguments.trim();
    if text.is_empty() {
        return Json::Object(Vec::new());
    }
    parsed_or_empty_object(Json::parse(text))
}

/// The words for the result of a call; `tool_name` is the name of the tool, where the call
/// is known.
pub open spec fn result_text(result: ToolCallResultView, tool_name: Option<Seq<char>>) -> Seq<
    char,
> {
    match result.result {
        Some(ToolResultView::RunShellCommand(run)) => match run {
            Some(RunShellCommandResultView::CommandFinished { exit_code, output }) =>
                "Command finished with exit code "@ + signed_decimal(exit_code as int) + ":\n"@
                    + output,
            Some(RunShellCommandResultView::LongRunningCommandSnapshot) =>
                "Command is still running."@,
            Some(RunShellCommandResultView::PermissionDenied) => "Command execution was denied."@,
            None => "Command result received."@,
        },
        Some(ToolResultView::CallMcpTool(call)) => match call {
            Some(CallMcpToolResultView::Success { result_count }) => "MCP tool succeeded with "@
                + decimal(result_count as nat) + " result item(s)."@,
            Some(CallMcpToolResultView::Error { message }) => "MCP tool failed: "@ + message,
            None => "MCP tool result received."@,
        },
        Some(ToolResultView::ReadMcpResource(read)) => match read {
            Some(ReadMcpResourceResultView::Success { content_count }) => "Read "@ + decimal(
                content_count as nat,
            ) + " MCP resource item(s)."@,
            Some(ReadMcpResourceResultView::Error { message }) => "MCP resource read failed: "@
                + message,
            None => "MCP resource result received."@,
        },
        Some(ToolResultView::ReadSkill(read)) => match read {
            Some(ReadSkillResultView::Success { content }) => match content {
                Some(content) if content.len() > 0 => content,
                _ => "Skill read successfully."@,
            },
            Some(ReadSkillResultView::Error { message }) => "Skill read failed: "@ + message,
            None => "Skill result received."@,
        },
        Some(ToolResultView::Cancel) => "Tool call was cancelled."@,
        _ => match tool_name {
            Some(name) => "Result received for tool `"@ + name + "`."@,
            None => "Tool call result received."@,
        },
    }
}

/// Three texts as one.
fn joined(a: &str, b: &str, c: &str) -> (r: String)
    ensures
        r@ == a@ + b@ + c@,
{
    let mut text = a.to_string();
    text.append(b);
    text.append(c);
    text
}

/// Two texts as one.
fn joined_two(a: &str, b: &str) -> (r: String)
    ensures
        r@ == a@ + b@,
{
    let mut text = a.to_string();
    text.append(b);
    text
}

/// Every call but one that passes on arguments of its own has arguments that are read back
/// as they are written.
pub proof fn law_flat_arguments(tool: ToolView)
    requires
        local_tool(tool) is Some,
        tool matches ToolView::CallMcpTool(call) ==> call.args is None,
    ensures
        tool_arguments(tool) matches Some(arguments) && exact_within(arguments, 127),
{
    let arguments = tool_arguments(tool)->0;
    let fields = arguments->Object_0;
    assert forall|key: Seq<char>| #[trigger] fields.contains_key(key) implies doubleless(
        fields[key],
    ) && nests_within(fields[key], 126) by {
        assert(fields[key] is Null || fields[key] is Bool || fields[key] is Str);
    }
}

/// The words for the result of a call.
pub fn format_tool_call_result(result: &ToolCallResult, tool_name: Option<&str>) -> (r: String)
    ensures
        r@ == result_text(result.deep_view(), tool_name.deep_view()),
{
    match &result.result {
        Some(ToolResult::RunShellCommand(run)) => match run {
            Some(RunShellCommandResult::CommandFinished { exit_code, output }) => {
                let mut text = joined(
                    "Command finished with exit code ",
                    signed_decimal_text(*exit_code).as_str(),
                    ":\n",
                );
                text.append(output.as_str());
                text
            },
            Some(RunShellCommandResult::LongRunningCommandSnapshot) =>
                "Command is still running.".to_string(),
            Some(RunShellCommandResult::PermissionDenied) =>
                "Command execution was denied.".to_string(),
            None => "Command result received.".to_string(),
        },
        Some(ToolResult::CallMcpTool(call)) => match call {
            Some(CallMcpToolResult::Success { result_count }) => joined(
                "MCP tool succeeded with ",
                decimal_text(*result_count as u64).as_str(),
                " result item(s).",
            ),
            Some(CallMcpToolResult::Error { message }) => joined_two(
                "MCP tool failed: ",
                message.as_str(),
            ),
            None => "MCP tool result received.".to_string(),
        },
        Some(ToolResult::ReadMcpResource(read)) => match read {
            Some(ReadMcpResourceResult::Success { content_count }) => joined(
                "Read ",
                decimal_text(*content_count as u64).as_str(),
                " MCP resource item(s).",
            ),
            Some(ReadMcpResourceResult::Error { message }) => joined_two(
                "MCP resource read failed: ",
                message.as_str(),
            ),
            None => "MCP resource result received.".to_string(),
        },
        Some(ToolResult::ReadSkill(read)) => match read {
            Some(ReadSkillResult::Success { content }) => match content {
                Some(content) => if content.as_str().is_empty() {
                    "Skill read successfully.".to_string()
                } else {
                    content.clone()
                },
                None => "Skill read successfully.".to_string(),
            },
            Some(ReadSkillResult::Error { message }) => joined_two(
                "Skill read failed: ",
                message.as_str(),
            ),
            None => "Skill result received.".to_string(),
        },
        Some(ToolResult::Cancel) => "Tool call was cancelled.".to_string(),
        _ => match tool_name {
            Some(name) => joined("Result received for tool `", name, "`."),
            None => "Tool call result received.".to_string(),
        },
    }
}

/// The schema of a value of a JSON type.
pub open spec fn type_schema(json_type: Seq<char>) -> JsonView {
    JsonView::Object(map!["type"@ => JsonView::Str(json_type)])
}

/// The schema of a value of a JSON type, with what the value is for.
pub open spec fn described_schema(json_type: Seq<char>, description: Seq<char>) -> JsonView {
    JsonView::Object(
        map![
            "type"@ => JsonView::Str(json_type),
            "description"@ => JsonView::Str(description),
        ],
    )
}

/// The schema of arguments with these properties, one of them required, and no others.
pub open spec fn arguments_schema(
    properties: Map<Seq<char>, JsonView>,
    required: Option<Seq<char>>,
) -> JsonView {
    let open = map![
        "type"@ => JsonView::Str("object"@),
        "properties"@ => JsonView::Object(properties),
    ];
    let closed = match required {
        Some(name) => open.insert("required"@, JsonView::Array(seq![JsonView::Str(name)])),
        None => open,
    };
    JsonView::Object(closed.insert("additionalProperties"@, JsonView::Bool(false)))
}

/// The tools that are offered, with the schemas of their arguments.
pub open spec fn tool_definitions() -> Seq<ToolDefinitionView> {
    seq![
        ToolDefinitionView::function(
            RUN_SHELL_COMMAND_TOOL_NAME@,
            "Run a shell command in the current terminal session."@,
            arguments_schema(
                map![
                    "command"@ => described_schema("string"@, "Shell command to execute."@),
                    "wait_until_complete"@ => described_schema(
                        "boolean"@,
                        "Whether to wait for command completion before responding."@,
                    ),
                ],
                Some("command"@),
            ),
        ),
        ToolDefinitionView::function(
            CALL_MCP_TOOL_NAME@,
            "Call an MCP tool by name with optional JSON arguments."@,
            arguments_schema(
                map![
                    "name"@ => type_schema("string"@),
                    "args"@ => type_schema("object"@),
                    "server_id"@ => type_schema("string"@),
                ],
                Some("name"@),
            ),
        ),
        ToolDefinitionView::function(
            READ_MCP_RESOURCE_TOOL_NAME@,
            "Read an MCP resource by URI."@,
            arguments_schema(
                map![
                    "uri"@ => type_schema("string"@),
                    "server_id"@ => type_schema("string"@),
                ],
                Some("uri"@),
            ),
        ),
        ToolDefinitionView::function(
            READ_SKILL_TOOL_NAME@,
            "Read a local or bundled skill."@,
            arguments_schema(
                map![
                    "name"@ => type_schema("string"@),
                    "skill_path"@ => type_schema("string"@),
                    "bundled_skill_id"@ => type_schema("string"@),
                ],
                None,
            ),
        ),
    ]
}

/// The same tools as an Anthropic endpoint takes them.
pub open spec fn anthropic_definition(tool: ToolDefinitionView) -> anthropic::ToolDefinitionView {
    anthropic::ToolDefinitionView {
        name: tool.function.name,
        description: tool.function.description,
        input_schema: tool.function.parameters,
    }
}

fn json_string(text: &str) -> (r: Json)
    ensures
        r.deep_view() == JsonView::Str(text@),
{
    Json::Str(text.to_string())
}

fn type_schema_json(json_type: &str) -> (r: Json)
    ensures
        r.deep_view() == type_schema(json_type@),
{
    let mut entries: Vec<(String, Json)> = Vec::new();
    add_field(&mut entries, "type", json_string(json_type));
    Json::Object(entries)
}

fn described_schema_json(json_type: &str, description: &str) -> (r: Json)
    ensures
        r.deep_view() == described_schema(json_type@, description@),
{
    let mut entries: Vec<(String, Json)> = Vec::new();
    add_field(&mut entries, "type", json_string(json_type));
    add_field(&mut entries, "description", json_string(description));
    Json::Object(entries)
}

fn arguments_schema_json(properties: Vec<(String, Json)>, required: Option<&str>) -> (r: Json)
    ensures
        r.deep_view() == arguments_schema(json_fields(properties@), required.deep_view()),
{
    let mut entries: Vec<(String, Json)> = Vec::new();
    add_field(&mut entries, "type", json_string("object"));
    add_field(&mut entries, "properties", Json::Object(properties));
    if let Some(name) = required {
        let mut names: Vec<Json> = Vec::new();
        names.push(json_string(name));
        assert(json_items(names@) =~= seq![JsonView::Str(name@)]);
        add_field(&mut entries, "required", Json::Array(names));
    }
    add_field(&mut entries, "additionalProperties", Json::Bool(false));
    Json::Object(entries)
}

/// The tools that are offered, with the schemas of their arguments.
pub fn local_tool_definitions() -> (r: Vec<ToolDefinition>)
    ensures
        r.deep_view() == tool_definitions(),
{
    let mut run: Vec<(String, Json)> = Vec::new();
    add_field(
        &mut run,
        "command",
        described_schema_json("string", "Shell command to execute."),
    );
    add_field(
        &mut run,
        "wait_until_complete",
        described_schema_json(
            "boolean",
            "Whether to wait for command completion before responding.",
        ),
    );
    let mut call: Vec<(String, Json)> = Vec::new();
    add_field(&mut call, "name", type_schema_json("string"));
    add_field(&mut call, "args", type_schema_json("object"));
    add_field(&mut call, "server_id", type_schema_json("string"));
    let mut resource: Vec<(String, Json)> = Vec::new();
    add_field(&mut resource, "uri", type_schema_json("string"));
    add_field(&mut resource, "server_id", type_schema_json("string"));
    let mut skill: Vec<(String, Json)> = Vec::new();
    add_field(&mut skill, "name", type_schema_json("string"));
    add_field(&mut skill, "skill_path", type_schema_json("string"));
    add_field(&mut skill, "bundled_skill_id", type_schema_json("string"));

    let mut tools: Vec<ToolDefinition> = Vec::new();
    tools.push(
        ToolDefinition::function(
            RUN_SHELL_COMMAND_TOOL_NAME,
            "Run a shell command in the current terminal session.",
            arguments_schema_json(run, Some("command")),
        ),
    );
    tools.push(
        ToolDefinition::function(
            CALL_MCP_TOOL_NAME,
            "Call an MCP tool by name with optional JSON arguments.",
            arguments_schema_json(call, Some("name")),
        ),
    );
    tools.push(
        ToolDefinition::function(
            READ_MCP_RESOURCE_TOOL_NAME,
            "Read an MCP resource by URI.",
            arguments_schema_json(resource, Some("uri")),
        ),
    );
    tools.push(
        ToolDefinition::function(
            READ_SKILL_TOOL_NAME,
            "Read a local or bundled skill.",
            arguments_schema_json(skill, None),
        ),
    );
    assert(tools.deep_view() =~= tool_definitions());
    tools
}

/// The tools that are offered, as an Anthropic endpoint takes them.
pub fn anthropic_tool_definitions() -> (r: Vec<anthropic::ToolDefinition>)
    ensures
        r.deep_view() == tool_definitions().map_values(
            |tool: ToolDefinitionView| anthropic_definition(tool),
        ),
{
    let tools = local_tool_definitions();
    let mut definitions: Vec<anthropic::ToolDefinition> = Vec::new();
    for tool in it: tools
        invariant
            it.seq() == tools@,
            tools.deep_view() == tool_definitions(),
            definitions@.len() == it.index(),
            forall|j: int|
                0 <= j < definitions@.len() ==> (#[trigger] definitions@[j]).deep_view()
                    == anthropic_definition(tools@[j].deep_view()),
    {
        definitions.push(
            anthropic::ToolDefinition::new(
                tool.function.name,
                tool.function.description,
                tool.function.parameters,
            ),
        );
    }
    assert(definitions.deep_view() =~= tool_definitions().map_values(
        |tool: ToolDefinitionView| anthropic_definition(tool),
    ));
    definitions
}

} // verus!
