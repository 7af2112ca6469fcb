//! Tool calls of the model: how they grow from the parts of a stream, and the messages
//! that they become.
use std::collections::BTreeMap;

use vstd::prelude::*;

use crate::api::{
    CallMcpTool, CallMcpToolView, MessageKind, MessageKindView, ReadMcpResource,
    ReadMcpResourceView, ReadSkill, ReadSkillView, RunShellCommand, RunShellCommandView,
    SkillReference, SkillReferenceView, TaskMessage, TaskMessageView, Tool, ToolCall, ToolCallView,
    ToolView,
};
use crate::error::{result_view, AIApiError, AIApiErrorView};
use crate::ids::{is_uuid_v4, new_uuid};
use crate::json::{doubleless, exact_within, json_parse, json_text, parses_to, Json, JsonView};
use crate::openai::{ToolCallDelta, ToolCallDeltaView};
use crate::proto::{json_value_to_prost_struct, struct_of};
use crate::text::{blank, is_blank, same_text, trimmed};
use crate::tools::{
    arguments_tell, local_tool_name, LocalTool, CALL_MCP_TOOL_NAME, READ_MCP_RESOURCE_TOOL_NAME,
    READ_SKILL_TOOL_NAME, RUN_SHELL_COMMAND_TOOL_NAME,
};

verus! {

/// A call as far as the stream has told it.
#[derive(Debug, Clone, PartialEq)]
pub struct PendingToolCall {
    pub id: String,
    pub name: String,
    pub arguments: String,
}

/// A call as far as the stream has told it.
pub struct PendingToolCallView {
    pub id: Seq<char>,
    pub name: Seq<char>,
    pub arguments: Seq<char>,
}

impl DeepView for PendingToolCall {
    type V = PendingToolCallView;

    open spec fn deep_view(&self) -> PendingToolCallView {
        PendingToolCallView { id: self.id@, name: self.name@, arguments: self.arguments@ }
    }
}

impl PendingToolCallView {
    /// A call of which nothing is told yet.
    pub open spec fn untold() -> PendingToolCallView {
        PendingToolCallView { id: Seq::empty(), name: Seq::empty(), arguments: Seq::empty() }
    }
}

impl Default for PendingToolCall {
    fn default() -> (r: Self)
        ensures
            r.deep_view() == PendingToolCallView::untold(),
    {
        PendingToolCall { id: String::new(), name: String::new(), arguments: String::new() }
    }
}

/// The calls of an answer by their place in it.
pub type PendingCalls = Map<usize, PendingToolCallView>;

/// What the calls of a map tell.
pub open spec fn pending_view(calls: Map<usize, PendingToolCall>) -> PendingCalls {
    calls.map_values(|call: PendingToolCall| call.deep_view())
}

/// The call at a place, untold where there is none.
pub open spec fn call_at(calls: PendingCalls, index: usize) -> PendingToolCallView {
    if calls.contains_key(index) {
        calls[index]
    } else {
        PendingToolCallView::untold()
    }
}

/// The call at a place, taken out of the map.
pub(crate) fn take_call(calls: &mut BTreeMap<usize, PendingToolCall>, index: usize) -> (r:
    PendingToolCall)
    ensures
        r.deep_view() == call_at(pending_view(old(calls)@), index),
        final(calls)@ == old(calls)@.remove(index),
{
    broadcast use vstd::laws_cmp::group_laws_cmp;

    match calls.remove(&index) {
        Some(call) => call,
        None => PendingToolCall::default(),
    }
}

/// Puts a call at a place that was taken.
pub(crate) fn put_call(
    calls: &mut BTreeMap<usize, PendingToolCall>,
    index: usize,
    call: PendingToolCall,
)
    ensures
        pending_view(final(calls)@) == pending_view(old(calls)@).insert(index, call.deep_view()),
{
    broadcast use vstd::laws_cmp::group_laws_cmp;

    calls.insert(index, call);
    assert(pending_view(calls@) =~= pending_view(old(calls)@).insert(index, call.deep_view()));
}

/// A text with another behind it, where there is another.
pub open spec fn extended(text: Seq<char>, more: Option<Seq<char>>) -> Seq<char> {
    match more {
        Some(more) => text + more,
        None => text,
    }
}

/// A call with a part added: an identifier that is not empty takes the place of the old
/// one, name and arguments grow.
pub open spec fn call_with(call: PendingToolCallView, delta: ToolCallDeltaView) ->
    PendingToolCallView {
    PendingToolCallView {
        id: match delta.id {
            Some(id) if id.len() > 0 => id,
            _ => call.id,
        },
        name: match delta.function {
            Some(function) => extended(call.name, function.name),
            None => call.name,
        },
        arguments: match delta.function {
            Some(function) => extended(call.arguments, function.arguments),
            None => call.arguments,
        },
    }
}

/// The place that a part is for: the one it names, or that after as many calls as there
/// are.
pub open spec fn delta_index(calls: PendingCalls, delta: ToolCallDeltaView) -> usize {
    match delta.index {
        Some(index) => index,
        None => calls.len() as usize,
    }
}

/// The calls with a part of one added.
pub open spec fn merged(calls: PendingCalls, delta: ToolCallDeltaView) -> PendingCalls {
    let index = delta_index(calls, delta);
    calls.insert(index, call_with(call_at(calls, index), delta))
}

/// Adds a part of a call to the calls of an answer.
pub fn merge_tool_call_delta(
    pending_tool_calls: &mut BTreeMap<usize, PendingToolCall>,
    delta: ToolCallDelta,
)
    ensures
        pending_view(final(pending_tool_calls)@) == merged(
            pending_view(old(pending_tool_calls)@),
            delta.deep_view(),
        ),
{
    broadcast use vstd::laws_cmp::group_laws_cmp;

    let ghost calls = pending_view(pending_tool_calls@);
    assert(calls.dom() =~= pending_tool_calls@.dom());
    let index = match delta.index {
        Some(index) => index,
        None => pending_tool_calls.len(),
    };
    let mut entry = take_call(pending_tool_calls, index);
    if let Some(id) = delta.id {
        if !id.as_str().is_empty() {
            entry.id = id;
        }
    }
    if let Some(function) = delta.function {
        if let Some(name) = function.name {
            entry.name.append(name.as_str());
        }
        if let Some(arguments) = function.arguments {
            entry.arguments.append(arguments.as_str());
        }
    }
    put_call(pending_tool_calls, index, entry);
    assert(pending_view(pending_tool_calls@) =~= merged(calls, delta.deep_view()));
}

/// The text of a tool's input; an input of null is an empty object.
pub open spec fn input_text(value: JsonView) -> Seq<char> {
    if value is Null {
        "{}"@
    } else {
        json_text(value)
    }
}

/// The text of a tool's input, written anew, if the text is JSON. A blank one is an empty
/// object.
pub open spec fn rewritten_input(raw: Seq<char>) -> Option<Seq<char>> {
    if is_blank(raw) {
        Some("{}"@)
    } else {
        match json_parse(trimmed(raw)) {
            Ok(value) => Some(input_text(value)),
            Err(_) => None,
        }
    }
}

/// Whether an input is JSON that stays as it is when it is written anew.
pub open spec fn stays(text: Seq<char>) -> bool {
    json_parse(text) is Ok && rewritten_input(text) == Some(text)
}

/// Whether an input that is written anew says what it said, where it is JSON other than null
/// and holds no double.
pub open spec fn says_the_same(raw: Seq<char>, rewritten: Option<Seq<char>>) -> bool {
    match (json_parse(trimmed(raw)), rewritten) {
        (Ok(value), Some(text)) => !is_blank(raw) && !(value is Null) && doubleless(value)
            ==> parses_to(text, value),
        _ => true,
    }
}

/// Whether writing an input anew twice is writing it anew once, where it is blank, or is JSON
/// that holds no double.
pub open spec fn settles(raw: Seq<char>, rewritten: Option<Seq<char>>) -> bool {
    rewritten matches Some(text) ==> {
        &&& is_blank(raw) ==> stays(text)
        &&& (json_parse(trimmed(raw)) matches Ok(value) && doubleless(value)) ==> stays(text)
    }
}

/// The text of an input that says nothing: an empty object.
fn empty_input() -> (r: String)
    ensures
        r@ == "{}"@,
        r@.len() > 0,
        trimmed(r@) == r@,
        stays(r@),
{
    let empty = Json::Object(Vec::new());
    assert(empty.deep_view()->Object_0 =~= Map::empty());
    empty.to_text()
}

/// The text of a tool's input: not empty, and without white space at its ends. Where the
/// input holds no double and is nested no deeper than the parser goes, the text stays as it
/// is when it is written anew, and an input that is not null is read back from it.
pub fn normalize_tool_input_json(value: &Json) -> (r: String)
    ensures
        r@ == input_text(value.deep_view()),
        r@.len() > 0,
        trimmed(r@) == r@,
        exact_within(value.deep_view(), 127) ==> stays(r@),
        !(value.deep_view() is Null) && exact_within(value.deep_view(), 127) ==> parses_to(
            r@,
            value.deep_view(),
        ),
{
    if value.is_null() {
        empty_input()
    } else {
        value.to_text()
    }
}

/// The text of a tool's input, written anew, if the text is JSON. It is not empty and has no
/// white space at its ends.
pub fn normalize_partial_tool_input(raw: &str) -> (r: Option<String>)
    ensures
        r.deep_view() == rewritten_input(raw@),
        r matches Some(text) ==> text@.len() > 0 && trimmed(text@) == text@,
        says_the_same(raw@, r.deep_view()),
        settles(raw@, r.deep_view()),
{
    let text = raw.trim();
    if text.is_empty() {
        return Some(empty_input());
    }
    match Json::parse(text) {
        Ok(value) => Some(normalize_tool_input_json(&value)),
        Err(_) => None,
    }
}

/// The arguments of the shell tool.
#[derive(Debug)]
pub struct RunShellCommandArgs {
    pub command: String,
    pub wait_until_complete: Option<bool>,
}

/// The arguments of the MCP tool.
#[derive(Debug)]
pub struct CallMcpToolArgs {
    pub name: String,
    pub args: Option<Json>,
    pub server_id: Option<String>,
}

/// The arguments of the MCP resource tool.
#[derive(Debug)]
pub struct ReadMcpResourceArgs {
    pub uri: String,
    pub server_id: Option<String>,
}

/// The arguments of the skill tool.
#[derive(Debug)]
pub struct ReadSkillArgs {
    pub name: Option<String>,
    pub skill_path: Option<String>,
    pub bundled_skill_id: Option<String>,
}

/// The arguments of a call, by tool.
#[derive(Debug)]
pub enum ToolArgs {
    RunShellCommand(RunShellCommandArgs),
    CallMcpTool(CallMcpToolArgs),
    ReadMcpResource(ReadMcpResourceArgs),
    ReadSkill(ReadSkillArgs),
}

/// The arguments of a call, by tool.
pub enum ToolArgsView {
    RunShellCommand { command: Seq<char>, wait_until_complete: Option<bool> },
    CallMcpTool { name: Seq<char>, args: Option<JsonView>, server_id: Option<Seq<char>> },
    ReadMcpResource { uri: Seq<char>, server_id: Option<Seq<char>> },
    ReadSkill {
        name: Option<Seq<char>>,
        skill_path: Option<Seq<char>>,
        bundled_skill_id: Option<Seq<char>>,
    },
}

impl DeepView for ToolArgs {
    type V = ToolArgsView;

    open spec fn deep_view(&self) -> ToolArgsView {
        match *self {
            ToolArgs::RunShellCommand(args) => ToolArgsView::RunShellCommand {
                command: args.command@,
                wait_until_complete: args.wait_until_complete,
            },
            ToolArgs::CallMcpTool(args) => ToolArgsView::CallMcpTool {
                name: args.name@,
                args: args.args.deep_view(),
                server_id: args.server_id.deep_view(),
            },
            ToolArgs::ReadMcpResource(args) => ToolArgsView::ReadMcpResource {
                uri: args.uri@,
                server_id: args.server_id.deep_view(),
            },
            ToolArgs::ReadSkill(args) => ToolArgsView::ReadSkill {
                name: args.name.deep_view(),
                skill_path: args.skill_path.deep_view(),
                bundled_skill_id: args.bundled_skill_id.deep_view(),
            },
        }
    }
}

/// The tool that arguments are for.
pub open spec fn args_tool(args: ToolArgsView) -> LocalTool {
    match args {
        ToolArgsView::RunShellCommand { .. } => LocalTool::RunShellCommand,
        ToolArgsView::CallMcpTool { .. } => LocalTool::CallMcpTool,
        ToolArgsView::ReadMcpResource { .. } => LocalTool::ReadMcpResource,
        ToolArgsView::ReadSkill { .. } => LocalTool::ReadSkill,
    }
}

/// The offered tool with a name.
pub open spec fn tool_named(name: Seq<char>) -> Option<LocalTool> {
    if name == RUN_SHELL_COMMAND_TOOL_NAME@ {
        Some(LocalTool::RunShellCommand)
    } else if name == CALL_MCP_TOOL_NAME@ {
        Some(LocalTool::CallMcpTool)
    } else if name == READ_MCP_RESOURCE_TOOL_NAME@ {
        Some(LocalTool::ReadMcpResource)
    } else if name == READ_SKILL_TOOL_NAME@ {
        Some(LocalTool::ReadSkill)
    } else {
        None
    }
}

/// The offered tool with a name.
pub fn local_tool_named(name: &str) -> (r: Option<LocalTool>)
    ensures
        r == tool_named(name@),
{
    if same_text(name, RUN_SHELL_COMMAND_TOOL_NAME) {
        Some(LocalTool::RunShellCommand)
    } else if same_text(name, CALL_MCP_TOOL_NAME) {
        Some(LocalTool::CallMcpTool)
    } else if same_text(name, READ_MCP_RESOURCE_TOOL_NAME) {
        Some(LocalTool::ReadMcpResource)
    } else if same_text(name, READ_SKILL_TOOL_NAME) {
        Some(LocalTool::ReadSkill)
    } else {
        None
    }
}

/// The text in which the arguments of a call stand: none is an empty object.
pub open spec fn arguments_text(raw: Seq<char>) -> Seq<char> {
    if is_blank(raw) {
        "{}"@
    } else {
        trimmed(raw)
    }
}

/// The arguments that are to be decoded before a call can become a message: those of
/// which tool, and the text in which they stand.
#[derive(Debug)]
pub struct DecodeRequest {
    pub tool: LocalTool,
    pub arguments: String,
}

/// The arguments that are to be decoded before a call can become a message.
pub struct DecodeRequestView {
    pub tool: LocalTool,
    pub arguments: Seq<char>,
}

impl DeepView for DecodeRequest {
    type V = DecodeRequestView;

    open spec fn deep_view(&self) -> DecodeRequestView {
        DecodeRequestView { tool: self.tool, arguments: self.arguments@ }
    }
}

/// What is to be decoded of a call: nothing where it names no tool that is offered.
pub open spec fn to_decode(call: PendingToolCallView) -> Option<DecodeRequestView> {
    match tool_named(trimmed(call.name)) {
        Some(tool) => Some(DecodeRequestView { tool, arguments: arguments_text(call.arguments) }),
        None => None,
    }
}

/// What is to be decoded of a call.
pub fn decode_request(call: &PendingToolCall) -> (r: Option<DecodeRequest>)
    ensures
        r.deep_view() == to_decode(call.deep_view()),
{
    match local_tool_named(call.name.as_str().trim()) {
        Some(tool) => {
            let text = call.arguments.as_str().trim();
            let arguments = if text.is_empty() {
                "{}".to_string()
            } else {
                text.to_string()
            };
            Some(DecodeRequest { tool, arguments })
        },
        None => None,
    }
}

/// What came of decoding: the arguments, or the words of the decoder's error.
pub type Decoded = Result<ToolArgsView, Seq<char>>;

/// Whether something was decoded where something is to be, and for the right tool.
pub open spec fn answers(request: Option<DecodeRequestView>, decoded: Option<Decoded>) -> bool {
    match request {
        Some(request) => match decoded {
            Some(Ok(args)) => args_tool(args) == request.tool,
            Some(Err(_)) => true,
            None => false,
        },
        None => true,
    }
}

/// What came of decoding.
pub open spec fn decoded_view(decoded: Option<Result<ToolArgs, String>>) -> Option<Decoded> {
    match decoded {
        Some(decoded) => Some(result_view(decoded)),
        None => None,
    }
}

/// The error for arguments that do not decode.
pub open spec fn arguments_failure(
    tool_name: Seq<char>,
    error: Seq<char>,
    raw_arguments: Seq<char>,
) -> AIApiErrorView {
    AIApiErrorView::Other(
        "Failed to parse arguments for local tool `"@ + tool_name + "`: "@ + error
            + ". arguments="@ + arguments_text(raw_arguments),
    )
}

/// The arguments of a call, where `decoded` is what its text decodes to.
pub fn parse_tool_args(
    tool_name: &str,
    raw_arguments: &str,
    decoded: Result<ToolArgs, String>,
) -> (r: Result<ToolArgs, AIApiError>)
    ensures
        result_view(r) == (match result_view(decoded) {
            Ok(args) => Ok(args),
            Err(error) => Err(arguments_failure(tool_name@, error, raw_arguments@)),
        }),
{
    match decoded {
        Ok(args) => Ok(args),
        Err(error) => {
            let arguments = raw_arguments.trim();
            let mut message = "Failed to parse arguments for local tool `".to_string();
            message.append(tool_name);
            message.append("`: ");
            message.append(error.as_str());
            message.append(". arguments=");
            if arguments.is_empty() {
                message.append("{}");
            } else {
                message.append(arguments);
            }
            Err(AIApiError::Other(message))
        },
    }
}

/// A text, empty where it is missing.
pub open spec fn or_empty(text: Option<Seq<char>>) -> Seq<char> {
    match text {
        Some(text) => text,
        None => Seq::empty(),
    }
}

fn string_or_empty(text: Option<String>) -> (r: String)
    ensures
        r@ == or_empty(text.deep_view()),
{
    match text {
        Some(text) => text,
        None => String::new(),
    }
}

/// The skill that arguments name: by its path, or else by its bundled name; an empty text
/// names none.
pub open spec fn skill_named(
    skill_path: Option<Seq<char>>,
    bundled_skill_id: Option<Seq<char>>,
) -> Option<SkillReferenceView> {
    if or_empty(skill_path).len() > 0 {
        Some(SkillReferenceView::SkillPath(or_empty(skill_path)))
    } else if or_empty(bundled_skill_id).len() > 0 {
        Some(SkillReferenceView::BundledSkillId(or_empty(bundled_skill_id)))
    } else {
        None
    }
}

/// The tool and what it is called with, for the arguments of a call, or why there is none.
pub open spec fn tool_of(args: ToolArgsView) -> Result<ToolView, AIApiErrorView> {
    match args {
        ToolArgsView::RunShellCommand { command, wait_until_complete } => Ok(
            ToolView::RunShellCommand(
                RunShellCommandView {
                    command,
                    is_read_only: false,
                    uses_pager: false,
                    is_risky: false,
                    risk_category: 0,
                    wait_until_complete,
                },
            ),
        ),
        ToolArgsView::CallMcpTool { name, args, server_id } => match struct_of(args) {
            Ok(args) => Ok(
                ToolView::CallMcpTool(
                    CallMcpToolView { name, args, server_id: or_empty(server_id) },
                ),
            ),
            Err(error) => Err(error),
        },
        ToolArgsView::ReadMcpResource { uri, server_id } => Ok(
            ToolView::ReadMcpResource(
                ReadMcpResourceView { uri, server_id: or_empty(server_id) },
            ),
        ),
        ToolArgsView::ReadSkill { name, skill_path, bundled_skill_id } => match skill_named(
            skill_path,
            bundled_skill_id,
        ) {
            Some(reference) => Ok(
                ToolView::ReadSkill(
                    ReadSkillView { name: or_empty(name), skill_reference: Some(reference) },
                ),
            ),
            None => Err(
                AIApiErrorView::Other(
                    "Tool `read_skill` requires either `skill_path` or `bundled_skill_id`."@,
                ),
            ),
        },
    }
}

fn skill_reference(skill_path: Option<String>, bundled_skill_id: Option<String>) -> (r: Option<
    SkillReference,
>)
    ensures
        r.deep_view() == skill_named(skill_path.deep_view(), bundled_skill_id.deep_view()),
{
    let path = string_or_empty(skill_path);
    if !path.as_str().is_empty() {
        return Some(SkillReference::SkillPath(path));
    }
    let id = string_or_empty(bundled_skill_id);
    if !id.as_str().is_empty() {
        Some(SkillReference::BundledSkillId(id))
    } else {
        None
    }
}

/// Whether the arguments of a call are right: those of the MCP tool are an object, where there
/// are any, and those of the skill tool name a skill.
pub fn are_right(args: &ToolArgs) -> (r: bool)
    ensures
        r == (tool_of(args.deep_view()) is Ok),
{
    match args {
        ToolArgs::RunShellCommand(_) => true,
        ToolArgs::CallMcpTool(args) => match &args.args {
            Some(Json::Object(_)) => true,
            Some(_) => false,
            None => true,
        },
        ToolArgs::ReadMcpResource(_) => true,
        ToolArgs::ReadSkill(args) => {
            let names_path = match &args.skill_path {
                Some(path) => !path.as_str().is_empty(),
                None => false,
            };
            let names_bundled = match &args.bundled_skill_id {
                Some(id) => !id.as_str().is_empty(),
                None => false,
            };
            names_path || names_bundled
        },
    }
}

/// The tool and what it is called with, for the arguments of a call. The tool's own arguments
/// tell all that it is called with.
pub fn tool_from_args(args: ToolArgs) -> (r: Result<Tool, AIApiError>)
    ensures
        result_view(r) == tool_of(args.deep_view()),
        r matches Ok(tool) ==> arguments_tell(tool.deep_view()),
{
    match args {
        ToolArgs::RunShellCommand(args) => Ok(
            Tool::RunShellCommand(
                RunShellCommand {
                    command: args.command,
                    is_read_only: false,
                    uses_pager: false,
                    is_risky: false,
                    risk_category: 0,
                    wait_until_complete: args.wait_until_complete,
                },
            ),
        ),
        ToolArgs::CallMcpTool(args) => match json_value_to_prost_struct(args.args) {
            Ok(fields) => Ok(
                Tool::CallMcpTool(
                    CallMcpTool {
                        name: args.name,
                        args: fields,
                        server_id: string_or_empty(args.server_id),
                    },
                ),
            ),
            Err(error) => Err(error),
        },
        ToolArgs::ReadMcpResource(args) => Ok(
            Tool::ReadMcpResource(
                ReadMcpResource { uri: args.uri, server_id: string_or_empty(args.server_id) },
            ),
        ),
        ToolArgs::ReadSkill(args) => match skill_reference(
            args.skill_path,
            args.bundled_skill_id,
        ) {
            Some(reference) => Ok(
                Tool::ReadSkill(
                    ReadSkill {
                        name: string_or_empty(args.name),
                        skill_reference: Some(reference),
                    },
                ),
            ),
            None => Err(
                AIApiError::Other(
                    "Tool `read_skill` requires either `skill_path` or `bundled_skill_id`.".to_string(),
                ),
            ),
        },
    }
}

/// The random parts of the identifiers of a call and of its message.
pub struct CallIdsView {
    pub call: Seq<char>,
    pub message: Seq<char>,
}

/// The random parts of the identifiers of a call and of its message.
#[derive(Debug, Clone)]
pub struct CallIds {
    pub call: String,
    pub message: String,
}

impl DeepView for CallIds {
    type V = CallIdsView;

    open spec fn deep_view(&self) -> CallIdsView {
        CallIdsView { call: self.call@, message: self.message@ }
    }
}

impl CallIdsView {
    /// Whether both are random UUIDs.
    pub open spec fn random(self) -> bool {
        is_uuid_v4(self.call) && is_uuid_v4(self.message)
    }
}

impl CallIds {
    /// Random identifiers.
    pub(crate) fn fresh() -> (r: CallIds)
        ensures
            r.deep_view().random(),
    {
        CallIds { call: new_uuid(), message: new_uuid() }
    }
}

/// The message for a call of a tool.
pub open spec fn tool_message(
    call: PendingToolCallView,
    tool: ToolView,
    task_id: Seq<char>,
    request_id: Seq<char>,
    ids: CallIdsView,
) -> TaskMessageView {
    TaskMessageView {
        id: "local-tool-call-msg-"@ + ids.message,
        task_id,
        request_id,
        server_message_data: Seq::empty(),
        message: Some(
            MessageKindView::ToolCall(
                ToolCallView {
                    tool_call_id: if is_blank(call.id) {
                        "local-tool-call-"@ + ids.call
                    } else {
                        call.id
                    },
                    tool: Some(tool),
                },
            ),
        ),
    }
}

/// The message that a call becomes, where `decoded` is what its arguments decode to: none
/// if it names no tool that is offered or nothing was decoded, an error if its arguments are
/// not right.
pub open spec fn call_message(
    call: PendingToolCallView,
    decoded: Option<Decoded>,
    task_id: Seq<char>,
    request_id: Seq<char>,
    ids: CallIdsView,
) -> Result<Option<TaskMessageView>, AIApiErrorView> {
    match (to_decode(call), decoded) {
        (Some(_), Some(Ok(args))) => match tool_of(args) {
            Ok(tool) => Ok(Some(tool_message(call, tool, task_id, request_id, ids))),
            Err(error) => Err(error),
        },
        (Some(_), Some(Err(error))) => Err(
            arguments_failure(trimmed(call.name), error, call.arguments),
        ),
        _ => Ok(None),
    }
}

/// The message that a call becomes, with these identifiers.
pub fn to_tool_call_message_with_ids(
    tool_call: PendingToolCall,
    decoded: Option<Result<ToolArgs, String>>,
    task_id: &str,
    request_id: &str,
    ids: &CallIds,
) -> (r: Result<Option<TaskMessage>, AIApiError>)
    ensures
        result_view(r) == call_message(
            tool_call.deep_view(),
            decoded_view(decoded),
            task_id@,
            request_id@,
            ids.deep_view(),
        ),
{
    let tool_name = tool_call.name.as_str().trim();
    if tool_name.is_empty() {
        proof {
            law_tool_names();
        }
        return Ok(None);
    }
    let tool_call_id = if blank(tool_call.id.as_str()) {
        let mut id = "local-tool-call-".to_string();
        id.append(ids.call.as_str());
        id
    } else {
        tool_call.id.clone()
    };
    if local_tool_named(tool_name).is_none() {
        return Ok(None);
    }
    let decoded = match decoded {
        Some(decoded) => decoded,
        None => return Ok(None),
    };
    let args = match parse_tool_args(tool_name, tool_call.arguments.as_str(), decoded) {
        Ok(args) => args,
        Err(error) => return Err(error),
    };
    let tool = match tool_from_args(args) {
        Ok(tool) => tool,
        Err(error) => return Err(error),
    };
    let mut id = "local-tool-call-msg-".to_string();
    id.append(ids.message.as_str());
    Ok(
        Some(
            TaskMessage {
                id,
                task_id: task_id.to_string(),
                request_id: request_id.to_string(),
                server_message_data: String::new(),
                message: Some(
                    MessageKind::ToolCall(ToolCall { tool_call_id, tool: Some(tool) }),
                ),
            },
        ),
    )
}

/// The message that a call becomes, with random identifiers.
pub fn to_tool_call_message(
    tool_call: PendingToolCall,
    decoded: Option<Result<ToolArgs, String>>,
    task_id: &str,
    request_id: &str,
) -> (r: Result<Option<TaskMessage>, AIApiError>)
    ensures
        exists|ids: CallIdsView|
            ids.random() && result_view(r) == #[trigger] call_message(
                tool_call.deep_view(),
                decoded_view(decoded),
                task_id@,
                request_id@,
                ids,
            ),
{
    let ids = CallIds::fresh();
    to_tool_call_message_with_ids(tool_call, decoded, task_id, request_id, &ids)
}

/// The names of the offered tools are not empty, and a name is that of one tool only.
pub proof fn law_tool_names()
    ensures
        forall|tool: LocalTool| (#[trigger] local_tool_name(tool)).len() > 0,
        forall|tool: LocalTool| tool_named(#[trigger] local_tool_name(tool)) == Some(tool),
        forall|name: Seq<char>| #[trigger]
            tool_named(name) matches Some(tool) ==> local_tool_name(tool) == name,
{
    reveal_strlit("run_shell_command");
    reveal_strlit("call_mcp_tool");
    reveal_strlit("read_mcp_resource");
    reveal_strlit("read_skill");
    assert forall|tool: LocalTool| tool_named(#[trigger] local_tool_name(tool)) == Some(tool) by {
        let name = local_tool_name(tool);
        assert(name.len() == 17 || name.len() == 13 || name.len() == 10);
        assert("run_shell_command"@[1] == 'u' && "read_mcp_resource"@[1] == 'e');
    }
}

} // verus!
