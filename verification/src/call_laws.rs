//! What holds of the calls of an answer as they become messages.
use vstd::prelude::*;

use crate::api::{MessageKindView, SkillReferenceView, TaskMessageView, ToolView};
use crate::calls::{
    args_tool, call_message, decoded_view, input_text, law_tool_names, rewritten_input, to_decode,
    tool_named, tool_of, CallIdsView, Decoded, PendingToolCallView, ToolArgs, ToolArgsView,
};
use crate::error::AIApiErrorView;
use crate::json::{json_parse, json_text, number_double, JsonView, NumberView};
use crate::proto::{json_to_proto, proto_to_json, struct_of, DoubleView, ProtoView};
use crate::text::{is_blank, trimmed};
use crate::tools::{local_tool_name, LocalTool};

verus! {

/// The name of an offered tool.
pub open spec fn offered_as(tool: LocalTool) -> Seq<char> {
    match tool {
        LocalTool::RunShellCommand => "run_shell_command"@,
        LocalTool::CallMcpTool => "call_mcp_tool"@,
        LocalTool::ReadMcpResource => "read_mcp_resource"@,
        LocalTool::ReadSkill => "read_skill"@,
    }
}

/// The text of an argument that may be missing, or empty.
pub open spec fn text_of(text: Option<Seq<char>>) -> Seq<char> {
    match text {
        Some(text) => text,
        None => Seq::empty(),
    }
}

/// What came of decoding is all taken into account: that there was nothing to decode, the words
/// of an error, and each argument that was decoded.
pub proof fn law_decoded(decoded: Option<Result<ToolArgs, String>>)
    ensures
        decoded is None <==> decoded_view(decoded) is None,
        decoded matches Some(Err(error)) ==> decoded_view(decoded) == Some(
            Err::<ToolArgsView, Seq<char>>(error@),
        ),
        decoded matches Some(Ok(args)) ==> {
            &&& decoded_view(decoded) matches Some(Ok(seen))
            &&& match (args, seen) {
                (
                    ToolArgs::RunShellCommand(args),
                    ToolArgsView::RunShellCommand { command, wait_until_complete },
                ) => args.command@ == command && args.wait_until_complete == wait_until_complete,
                (
                    ToolArgs::CallMcpTool(args),
                    ToolArgsView::CallMcpTool { name, args: values, server_id },
                ) => args.name@ == name && args.args.deep_view() == values
                    && args.server_id.deep_view() == server_id,
                (
                    ToolArgs::ReadMcpResource(args),
                    ToolArgsView::ReadMcpResource { uri, server_id },
                ) => args.uri@ == uri && args.server_id.deep_view() == server_id,
                (
                    ToolArgs::ReadSkill(args),
                    ToolArgsView::ReadSkill { name, skill_path, bundled_skill_id },
                ) => args.name.deep_view() == name && args.skill_path.deep_view() == skill_path
                    && args.bundled_skill_id.deep_view() == bundled_skill_id,
                _ => false,
            }
        },
{
}

/// The arguments of a call are decoded as those of the tool that it names, white space at the
/// ends left out, and as an empty object where there are none. A call that names no offered
/// tool has nothing to decode.
pub proof fn law_to_decode(call: PendingToolCallView, tool: LocalTool)
    ensures
        trimmed(call.name) == offered_as(tool) ==> (to_decode(call) matches Some(request)
            && request.tool == tool && request.arguments == if is_blank(call.arguments) {
            "{}"@
        } else {
            trimmed(call.arguments)
        }),
        to_decode(call) is Some ==> exists|named: LocalTool|
            trimmed(call.name) == #[trigger] offered_as(named),
{
    law_tool_names();
    if let Some(request) = to_decode(call) {
        assert(trimmed(call.name) == offered_as(request.tool));
    }
    if trimmed(call.name) == offered_as(tool) {
        assert(tool_named(offered_as(tool)) == Some(tool)) by {
            assert(offered_as(tool) == local_tool_name(tool));
        }
    }
}

/// A shell call runs the command that the arguments give, waits as they say, and is marked in
/// no way.
pub proof fn law_shell_call(command: Seq<char>, wait: Option<bool>)
    ensures
        tool_of(
            ToolArgsView::RunShellCommand { command, wait_until_complete: wait },
        ) matches Ok(ToolView::RunShellCommand(run)) && {
            &&& run.command == command
            &&& run.wait_until_complete == wait
            &&& !run.is_read_only
            &&& !run.uses_pager
            &&& !run.is_risky
            &&& run.risk_category == 0
        },
{
}

/// An MCP call names the tool and the server that the arguments give, and passes on their
/// object, each value in its protobuf form. Arguments that are no object are refused, and the
/// error shows them.
pub proof fn law_mcp_call(
    name: Seq<char>,
    args: Option<JsonView>,
    server_id: Option<Seq<char>>,
)
    ensures
        ({
            let made = tool_of(ToolArgsView::CallMcpTool { name, args, server_id });
            match args {
                None => made matches Ok(ToolView::CallMcpTool(call)) && call.name == name
                    && call.server_id == text_of(server_id) && call.args is None,
                Some(JsonView::Object(fields)) => made matches Ok(ToolView::CallMcpTool(call)) && {
                    &&& call.name == name
                    &&& call.server_id == text_of(server_id)
                    &&& call.args matches Some(passed)
                    &&& passed.dom() == fields.dom()
                    &&& forall|key: Seq<char>| #[trigger]
                        fields.contains_key(key) ==> passed[key] == json_to_proto(fields[key])
                },
                Some(other) => made == Err::<ToolView, AIApiErrorView>(
                    AIApiErrorView::Other(
                        "Expected MCP `args` to be a JSON object, got: "@ + json_text(other),
                    ),
                ),
            }
        }),
{
    if let Some(JsonView::Object(fields)) = args {
        let made = tool_of(ToolArgsView::CallMcpTool { name, args, server_id });
        assert(struct_of(args)->Ok_0->0.dom() =~= fields.dom());
    }
}

/// A call that reads a resource names the resource and the server that the arguments give.
pub proof fn law_resource_call(uri: Seq<char>, server_id: Option<Seq<char>>)
    ensures
        tool_of(
            ToolArgsView::ReadMcpResource { uri, server_id },
        ) matches Ok(ToolView::ReadMcpResource(read)) && read.uri == uri && read.server_id
            == text_of(server_id),
{
}

/// A call that reads a skill names it by the path that the arguments give, or else by the
/// bundled name; arguments that give neither are refused.
pub proof fn law_skill_call(
    name: Option<Seq<char>>,
    path: Option<Seq<char>>,
    id: Option<Seq<char>>,
)
    ensures
        ({
            let made = tool_of(
                ToolArgsView::ReadSkill { name, skill_path: path, bundled_skill_id: id },
            );
            if text_of(path).len() > 0 {
                made matches Ok(ToolView::ReadSkill(read)) && read.name == text_of(name)
                    && read.skill_reference == Some(SkillReferenceView::SkillPath(text_of(path)))
            } else if text_of(id).len() > 0 {
                made matches Ok(ToolView::ReadSkill(read)) && read.name == text_of(name)
                    && read.skill_reference == Some(SkillReferenceView::BundledSkillId(text_of(id)))
            } else {
                made == Err::<ToolView, AIApiErrorView>(
                    AIApiErrorView::Other(
                        "Tool `read_skill` requires either `skill_path` or `bundled_skill_id`."@,
                    ),
                )
            }
        }),
{
}

/// A call of an offered tool becomes one message of the task and the request, which calls the
/// tool that its arguments make under the call's own identifier, or a fresh one where that is
/// blank. Where the arguments make no tool, or do not decode, it is an error that says why.
pub proof fn law_call_message(
    call: PendingToolCallView,
    decoded: Decoded,
    task_id: Seq<char>,
    request_id: Seq<char>,
    ids: CallIdsView,
    tool: LocalTool,
)
    requires
        trimmed(call.name) == offered_as(tool),
    ensures
        ({
            let made = call_message(call, Some(decoded), task_id, request_id, ids);
            match decoded {
                Ok(args) => match tool_of(args) {
                    Ok(run) => made matches Ok(Some(message)) && {
                        &&& message.id == "local-tool-call-msg-"@ + ids.message
                        &&& message.task_id == task_id
                        &&& message.request_id == request_id
                        &&& message.server_message_data.len() == 0
                        &&& message.message matches Some(MessageKindView::ToolCall(stored))
                        &&& stored.tool == Some(run)
                        &&& !is_blank(call.id) ==> stored.tool_call_id == call.id
                        &&& is_blank(call.id) ==> stored.tool_call_id == "local-tool-call-"@
                            + ids.call
                    },
                    Err(error) => made == Err::<Option<TaskMessageView>, AIApiErrorView>(error),
                },
                Err(error) => made == Err::<Option<TaskMessageView>, AIApiErrorView>(
                    AIApiErrorView::Other(
                        "Failed to parse arguments for local tool `"@ + offered_as(tool) + "`: "@
                            + error + ". arguments="@ + if is_blank(call.arguments) {
                            "{}"@
                        } else {
                            trimmed(call.arguments)
                        },
                    ),
                ),
            }
        }),
{
    law_to_decode(call, tool);
}

/// A call that names no offered tool becomes no message, and is no error.
pub proof fn law_call_not_offered(
    call: PendingToolCallView,
    decoded: Option<Decoded>,
    task_id: Seq<char>,
    request_id: Seq<char>,
    ids: CallIdsView,
)
    requires
        forall|tool: LocalTool| trimmed(call.name) != #[trigger] offered_as(tool),
    ensures
        call_message(call, decoded, task_id, request_id, ids) == Ok::<
            Option<TaskMessageView>,
            AIApiErrorView,
        >(None),
{
    law_to_decode(call, LocalTool::ReadSkill);
}

/// An input that is written anew is an empty object where it is blank or null, the compact text
/// of its value where it is other JSON, and nothing where it is no JSON.
pub proof fn law_input_rewritten(raw: Seq<char>, value: JsonView)
    ensures
        is_blank(raw) ==> rewritten_input(raw) == Some("{}"@),
        !is_blank(raw) ==> match json_parse(trimmed(raw)) {
            Ok(JsonView::Null) => rewritten_input(raw) == Some("{}"@),
            Ok(parsed) => rewritten_input(raw) == Some(json_text(parsed)),
            Err(_) => rewritten_input(raw) is None,
        },
        value is Null ==> input_text(value) == "{}"@,
        !(value is Null) ==> input_text(value) == json_text(value),
{
}

/// The arguments of each tool are for that tool.
pub proof fn law_arguments_for(args: ToolArgsView)
    ensures
        match args {
            ToolArgsView::RunShellCommand { .. } => args_tool(args) is RunShellCommand,
            ToolArgsView::CallMcpTool { .. } => args_tool(args) is CallMcpTool,
            ToolArgsView::ReadMcpResource { .. } => args_tool(args) is ReadMcpResource,
            ToolArgsView::ReadSkill { .. } => args_tool(args) is ReadSkill,
        },
{
}

/// The protobuf form of a value is of the same kind and holds the same: a truth value or a text
/// itself, a double itself, an integer as the double nearest to it, and a list or an object the
/// forms of what is in it, in the same order or under the same keys.
pub proof fn law_json_to_proto(value: JsonView)
    ensures
        match value {
            JsonView::Null => json_to_proto(value) == ProtoView::Null(0),
            JsonView::Bool(b) => json_to_proto(value) == ProtoView::Bool(b),
            JsonView::Str(text) => json_to_proto(value) == ProtoView::Str(text),
            JsonView::Number(NumberView::Float(bits)) => json_to_proto(value) == ProtoView::Number(
                DoubleView::Finite(NumberView::Float(bits)),
            ),
            JsonView::Number(number) => json_to_proto(value) == ProtoView::Number(
                DoubleView::Finite(number_double(number)),
            ),
            JsonView::Array(items) => json_to_proto(value) matches ProtoView::List(values)
                && values.len() == items.len() && (forall|i: int|
                0 <= i < items.len() ==> #[trigger] values[i] == json_to_proto(items[i])),
            JsonView::Object(fields) => json_to_proto(value) matches ProtoView::Struct(values)
                && values.dom() == fields.dom() && (forall|key: Seq<char>| #[trigger]
                fields.contains_key(key) ==> values[key] == json_to_proto(fields[key])),
        },
{
    if let JsonView::Object(fields) = value {
        assert(json_to_proto(value)->Struct_0.dom() =~= fields.dom());
    }
}

/// The JSON form of a protobuf value is of the same kind and holds the same. A value without a
/// kind and a number that is not finite are null.
pub proof fn law_proto_to_json(value: ProtoView)
    ensures
        match value {
            ProtoView::Missing => proto_to_json(value) is Null,
            ProtoView::Null(_) => proto_to_json(value) is Null,
            ProtoView::Number(DoubleView::NotFinite) => proto_to_json(value) is Null,
            ProtoView::Number(DoubleView::Finite(number)) => proto_to_json(value)
                == JsonView::Number(number),
            ProtoView::Str(text) => proto_to_json(value) == JsonView::Str(text),
            ProtoView::Bool(b) => proto_to_json(value) == JsonView::Bool(b),
            ProtoView::List(values) => proto_to_json(value) matches JsonView::Array(items)
                && items.len() == values.len() && (forall|i: int|
                0 <= i < values.len() ==> #[trigger] items[i] == proto_to_json(values[i])),
            ProtoView::Struct(values) => proto_to_json(value) matches JsonView::Object(fields)
                && fields.dom() == values.dom() && (forall|key: Seq<char>| #[trigger]
                values.contains_key(key) ==> fields[key] == proto_to_json(values[key])),
        },
{
    if let ProtoView::Struct(values) = value {
        assert(proto_to_json(value)->Object_0.dom() =~= values.dom());
    }
}

} // verus!
