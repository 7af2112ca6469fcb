//! The tasks, messages and response events that a local agent stream reads and makes.
use vstd::prelude::*;

use crate::proto::{ProtoStruct, ProtoView};

verus! {

/// A task of a conversation, with its messages in order.
#[derive(Debug, PartialEq)]
pub struct Task {
    pub id: String,
    pub messages: Vec<TaskMessage>,
}

/// A task of a conversation, with its messages in order.
pub struct TaskView {
    pub id: Seq<char>,
    pub messages: Seq<TaskMessageView>,
}

impl DeepView for Task {
    type V = TaskView;

    open spec fn deep_view(&self) -> TaskView {
        TaskView {
            id: self.id@,
            messages: self.messages.deep_view(),
        }
    }
}

/// A message of a task. It has neither citations nor a time.
#[derive(Debug, PartialEq)]
pub struct TaskMessage {
    pub id: String,
    pub task_id: String,
    pub request_id: String,
    pub server_message_data: String,
    pub message: Option<MessageKind>,
}

/// A message of a task. It has neither citations nor a time.
pub struct TaskMessageView {
    pub id: Seq<char>,
    pub task_id: Seq<char>,
    pub request_id: Seq<char>,
    pub server_message_data: Seq<char>,
    pub message: Option<MessageKindView>,
}

impl DeepView for TaskMessage {
    type V = TaskMessageView;

    open spec fn deep_view(&self) -> TaskMessageView {
        TaskMessageView {
            id: self.id@,
            task_id: self.task_id@,
            request_id: self.request_id@,
            server_message_data: self.server_message_data@,
            message: self.message.deep_view(),
        }
    }
}

/// What a message is.
#[derive(Debug, PartialEq)]
pub enum MessageKind {
    /// The user asks this.
    UserQuery(String),
    /// The agent says this.
    AgentOutput(String),
    /// The agent calls a tool.
    ToolCall(ToolCall),
    /// A tool has finished.
    ToolCallResult(ToolCallResult),
    /// A message that the local provider does not show the model.
    Other,
}

/// What a message is.
pub enum MessageKindView {
    UserQuery(Seq<char>),
    AgentOutput(Seq<char>),
    ToolCall(ToolCallView),
    ToolCallResult(ToolCallResultView),
    Other,
}

impl DeepView for MessageKind {
    type V = MessageKindView;

    open spec fn deep_view(&self) -> MessageKindView {
        match *self {
            MessageKind::UserQuery(x) => MessageKindView::UserQuery(x@),
            MessageKind::AgentOutput(x) => MessageKindView::AgentOutput(x@),
            MessageKind::ToolCall(x) => MessageKindView::ToolCall(x.deep_view()),
            MessageKind::ToolCallResult(x) => MessageKindView::ToolCallResult(x.deep_view()),
            MessageKind::Other => MessageKindView::Other,
        }
    }
}

/// A call of a tool.
#[derive(Debug, PartialEq)]
pub struct ToolCall {
    pub tool_call_id: String,
    pub tool: Option<Tool>,
}

/// A call of a tool.
pub struct ToolCallView {
    pub tool_call_id: Seq<char>,
    pub tool: Option<ToolView>,
}

impl DeepView for ToolCall {
    type V = ToolCallView;

    open spec fn deep_view(&self) -> ToolCallView {
        ToolCallView {
            tool_call_id: self.tool_call_id@,
            tool: self.tool.deep_view(),
        }
    }
}

/// A tool and what it is called with.
#[derive(Debug, PartialEq)]
pub enum Tool {
    /// Run a shell command.
    RunShellCommand(RunShellCommand),
    /// Call a tool of an MCP server.
    CallMcpTool(CallMcpTool),
    /// Read a resource of an MCP server.
    ReadMcpResource(ReadMcpResource),
    /// Read a skill.
    ReadSkill(ReadSkill),
    /// A tool that the local provider does not offer.
    Other,
}

/// A tool and what it is called with.
pub enum ToolView {
    RunShellCommand(RunShellCommandView),
    CallMcpTool(CallMcpToolView),
    ReadMcpResource(ReadMcpResourceView),
    ReadSkill(ReadSkillView),
    Other,
}

impl DeepView for Tool {
    type V = ToolView;

    open spec fn deep_view(&self) -> ToolView {
        match *self {
            Tool::RunShellCommand(x) => ToolView::RunShellCommand(x.deep_view()),
            Tool::CallMcpTool(x) => ToolView::CallMcpTool(x.deep_view()),
            Tool::ReadMcpResource(x) => ToolView::ReadMcpResource(x.deep_view()),
            Tool::ReadSkill(x) => ToolView::ReadSkill(x.deep_view()),
            Tool::Other => ToolView::Other,
        }
    }
}

/// A shell command to run. It has no citations.
#[derive(Debug, PartialEq)]
pub struct RunShellCommand {
    pub command: String,
    pub is_read_only: bool,
    pub uses_pager: bool,
    pub is_risky: bool,
    pub risk_category: i32,
    pub wait_until_complete: Option<bool>,
}

/// A shell command to run. It has no citations.
pub struct RunShellCommandView {
    pub command: Seq<char>,
    pub is_read_only: bool,
    pub uses_pager: bool,
    pub is_risky: bool,
    pub risk_category: i32,
    pub wait_until_complete: Option<bool>,
}

impl DeepView for RunShellCommand {
    type V = RunShellCommandView;

    open spec fn deep_view(&self) -> RunShellCommandView {
        RunShellCommandView {
            command: self.command@,
            is_read_only: self.is_read_only,
            uses_pager: self.uses_pager,
            is_risky: self.is_risky,
            risk_category: self.risk_category,
            wait_until_complete: self.wait_until_complete.deep_view(),
        }
    }
}

/// A call of a tool of an MCP server; an empty server is any.
#[derive(Debug, PartialEq)]
pub struct CallMcpTool {
    pub name: String,
    pub args: Option<ProtoStruct>,
    pub server_id: String,
}

/// A call of a tool of an MCP server; an empty server is any.
pub struct CallMcpToolView {
    pub name: Seq<char>,
    pub args: Option<Map<Seq<char>, ProtoView>>,
    pub server_id: Seq<char>,
}

impl DeepView for CallMcpTool {
    type V = CallMcpToolView;

    open spec fn deep_view(&self) -> CallMcpToolView {
        CallMcpToolView {
            name: self.name@,
            args: self.args.deep_view(),
            server_id: self.server_id@,
        }
    }
}

/// A resource of an MCP server to read; an empty server is any.
#[derive(Debug, PartialEq)]
pub struct ReadMcpResource {
    pub uri: String,
    pub server_id: String,
}

/// A resource of an MCP server to read; an empty server is any.
pub struct ReadMcpResourceView {
    pub uri: Seq<char>,
    pub server_id: Seq<char>,
}

impl DeepView for ReadMcpResource {
    type V = ReadMcpResourceView;

    open spec fn deep_view(&self) -> ReadMcpResourceView {
        ReadMcpResourceView {
            uri: self.uri@,
            server_id: self.server_id@,
        }
    }
}

/// A skill to read.
#[derive(Debug, PartialEq)]
pub struct ReadSkill {
    pub name: String,
    pub skill_reference: Option<SkillReference>,
}

/// A skill to read.
pub struct ReadSkillView {
    pub name: Seq<char>,
    pub skill_reference: Option<SkillReferenceView>,
}

impl DeepView for ReadSkill {
    type V = ReadSkillView;

    open spec fn deep_view(&self) -> ReadSkillView {
        ReadSkillView {
            name: self.name@,
            skill_reference: self.skill_reference.deep_view(),
        }
    }
}

/// Where a skill is.
#[derive(Debug, PartialEq)]
pub enum SkillReference {
    /// In this file.
    SkillPath(String),
    /// Among the bundled skills, under this name.
    BundledSkillId(String),
}

/// Where a skill is.
pub enum SkillReferenceView {
    SkillPath(Seq<char>),
    BundledSkillId(Seq<char>),
}

impl DeepView for SkillReference {
    type V = SkillReferenceView;

    open spec fn deep_view(&self) -> SkillReferenceView {
        match *self {
            SkillReference::SkillPath(x) => SkillReferenceView::SkillPath(x@),
            SkillReference::BundledSkillId(x) => SkillReferenceView::BundledSkillId(x@),
        }
    }
}

/// What came of a call.
#[derive(Debug, PartialEq)]
pub struct ToolCallResult {
    pub tool_call_id: String,
    pub result: Option<ToolResult>,
}

/// What came of a call.
pub struct ToolCallResultView {
    pub tool_call_id: Seq<char>,
    pub result: Option<ToolResultView>,
}

impl DeepView for ToolCallResult {
    type V = ToolCallResultView;

    open spec fn deep_view(&self) -> ToolCallResultView {
        ToolCallResultView {
            tool_call_id: self.tool_call_id@,
            result: self.result.deep_view(),
        }
    }
}

/// What came of a call, by tool.
#[derive(Debug, PartialEq)]
pub enum ToolResult {
    /// Of a shell command.
    RunShellCommand(Option<RunShellCommandResult>),
    /// Of a call of an MCP tool.
    CallMcpTool(Option<CallMcpToolResult>),
    /// Of reading an MCP resource.
    ReadMcpResource(Option<ReadMcpResourceResult>),
    /// Of reading a skill.
    ReadSkill(Option<ReadSkillResult>),
    /// The call was cancelled.
    Cancel,
    /// Of a tool that the local provider does not offer.
    Other,
}

/// What came of a call, by tool.
pub enum ToolResultView {
    RunShellCommand(Option<RunShellCommandResultView>),
    CallMcpTool(Option<CallMcpToolResultView>),
    ReadMcpResource(Option<ReadMcpResourceResultView>),
    ReadSkill(Option<ReadSkillResultView>),
    Cancel,
    Other,
}

impl DeepView for ToolResult {
    type V = ToolResultView;

    open spec fn deep_view(&self) -> ToolResultView {
        match *self {
            ToolResult::RunShellCommand(x) => ToolResultView::RunShellCommand(x.deep_view()),
            ToolResult::CallMcpTool(x) => ToolResultView::CallMcpTool(x.deep_view()),
            ToolResult::ReadMcpResource(x) => ToolResultView::ReadMcpResource(x.deep_view()),
            ToolResult::ReadSkill(x) => ToolResultView::ReadSkill(x.deep_view()),
            ToolResult::Cancel => ToolResultView::Cancel,
            ToolResult::Other => ToolResultView::Other,
        }
    }
}

/// What came of a shell command.
#[derive(Debug, PartialEq)]
pub enum RunShellCommandResult {
    /// It has finished.
    CommandFinished { exit_code: i32, output: String },
    /// It still runs.
    LongRunningCommandSnapshot,
    /// It may not run.
    PermissionDenied,
}

/// What came of a shell command.
pub enum RunShellCommandResultView {
    CommandFinished { exit_code: i32, output: Seq<char> },
    LongRunningCommandSnapshot,
    PermissionDenied,
}

impl DeepView for RunShellCommandResult {
    type V = RunShellCommandResultView;

    open spec fn deep_view(&self) -> RunShellCommandResultView {
        match *self {
            RunShellCommandResult::CommandFinished { exit_code, output } =>
                RunShellCommandResultView::CommandFinished { exit_code, output: output@ },
            RunShellCommandResult::LongRunningCommandSnapshot =>
                RunShellCommandResultView::LongRunningCommandSnapshot,
            RunShellCommandResult::PermissionDenied => RunShellCommandResultView::PermissionDenied,
        }
    }
}

/// What came of a call of an MCP tool.
#[derive(Debug, PartialEq)]
pub enum CallMcpToolResult {
    /// It gave this many results.
    Success { result_count: usize },
    /// It failed.
    Error { message: String },
}

/// What came of a call of an MCP tool.
pub enum CallMcpToolResultView {
    Success { result_count: usize },
    Error { message: Seq<char> },
}

impl DeepView for CallMcpToolResult {
    type V = CallMcpToolResultView;

    open spec fn deep_view(&self) -> CallMcpToolResultView {
        match *self {
            CallMcpToolResult::Success { result_count } => CallMcpToolResultView::Success {
                result_count,
            },
            CallMcpToolResult::Error { message } => CallMcpToolResultView::Error {
                message: message@,
            },
        }
    }
}

/// What came of reading an MCP resource.
#[derive(Debug, PartialEq)]
pub enum ReadMcpResourceResult {
    /// It has this many contents.
    Success { content_count: usize },
    /// It failed.
    Error { message: String },
}

/// What came of reading an MCP resource.
pub enum ReadMcpResourceResultView {
    Success { content_count: usize },
    Error { message: Seq<char> },
}

impl DeepView for ReadMcpResourceResult {
    type V = ReadMcpResourceResultView;

    open spec fn deep_view(&self) -> ReadMcpResourceResultView {
        match *self {
            ReadMcpResourceResult::Success { content_count } => ReadMcpResourceResultView::Success {
                content_count,
            },
            ReadMcpResourceResult::Error { message } => ReadMcpResourceResultView::Error {
                message: message@,
            },
        }
    }
}

/// What came of reading a skill.
#[derive(Debug, PartialEq)]
pub enum ReadSkillResult {
    /// The skill says this.
    Success { content: Option<String> },
    /// It failed.
    Error { message: String },
}

/// What came of reading a skill.
pub enum ReadSkillResultView {
    Success { content: Option<Seq<char>> },
    Error { message: Seq<char> },
}

impl DeepView for ReadSkillResult {
    type V = ReadSkillResultView;

    open spec fn deep_view(&self) -> ReadSkillResultView {
        match *self {
            ReadSkillResult::Success { content } => ReadSkillResultView::Success {
                content: content.deep_view(),
            },
            ReadSkillResult::Error { message } => ReadSkillResultView::Error {
                message: message@,
            },
        }
    }
}

/// What an agent request is about: the tasks so far, and what is new.
#[derive(Debug, PartialEq)]
pub struct RequestParams {
    pub tasks: Vec<Task>,
    pub input: Vec<AgentInput>,
}

/// What an agent request is about: the tasks so far, and what is new.
pub struct RequestParamsView {
    pub tasks: Seq<TaskView>,
    pub input: Seq<AgentInputView>,
}

impl DeepView for RequestParams {
    type V = RequestParamsView;

    open spec fn deep_view(&self) -> RequestParamsView {
        RequestParamsView {
            tasks: self.tasks.deep_view(),
            input: self.input.deep_view(),
        }
    }
}

/// A new input to the agent: a query of the user, or the result of an action.
#[derive(Debug, PartialEq)]
pub struct AgentInput {
    pub user_query: Option<String>,
    pub action_result: Option<ActionResult>,
}

/// A new input to the agent: a query of the user, or the result of an action.
pub struct AgentInputView {
    pub user_query: Option<Seq<char>>,
    pub action_result: Option<ActionResultView>,
}

impl DeepView for AgentInput {
    type V = AgentInputView;

    open spec fn deep_view(&self) -> AgentInputView {
        AgentInputView {
            user_query: self.user_query.deep_view(),
            action_result: self.action_result.deep_view(),
        }
    }
}

/// The result of an action, in words.
#[derive(Debug, PartialEq)]
pub struct ActionResult {
    pub id: String,
    pub result: String,
}

/// The result of an action, in words.
pub struct ActionResultView {
    pub id: Seq<char>,
    pub result: Seq<char>,
}

impl DeepView for ActionResult {
    type V = ActionResultView;

    open spec fn deep_view(&self) -> ActionResultView {
        ActionResultView {
            id: self.id@,
            result: self.result@,
        }
    }
}

/// The endpoint that serves a request.
#[derive(Debug, PartialEq)]
pub struct LocalAgentConfig {
    pub endpoint_url: String,
    pub model_name: String,
    pub api_key: Option<String>,
}

/// The endpoint that serves a request.
pub struct LocalAgentConfigView {
    pub endpoint_url: Seq<char>,
    pub model_name: Seq<char>,
    pub api_key: Option<Seq<char>>,
}

impl DeepView for LocalAgentConfig {
    type V = LocalAgentConfigView;

    open spec fn deep_view(&self) -> LocalAgentConfigView {
        LocalAgentConfigView {
            endpoint_url: self.endpoint_url@,
            model_name: self.model_name@,
            api_key: self.api_key.deep_view(),
        }
    }
}

/// An event of a response.
#[derive(Debug, PartialEq)]
pub enum ResponseEvent {
    /// The response begins.
    Init { request_id: String, conversation_id: String, run_id: String },
    /// The client is to do this.
    ClientActions(Vec<ClientAction>),
    /// The response is complete.
    Finished(StreamFinished),
}

/// An event of a response.
pub enum ResponseEventView {
    Init { request_id: Seq<char>, conversation_id: Seq<char>, run_id: Seq<char> },
    ClientActions(Seq<ClientActionView>),
    Finished(StreamFinishedView),
}

impl DeepView for ResponseEvent {
    type V = ResponseEventView;

    open spec fn deep_view(&self) -> ResponseEventView {
        match *self {
            ResponseEvent::Init { request_id, conversation_id, run_id } => ResponseEventView::Init {
                request_id: request_id@,
                conversation_id: conversation_id@,
                run_id: run_id@,
            },
            ResponseEvent::ClientActions(x) => ResponseEventView::ClientActions(x.deep_view()),
            ResponseEvent::Finished(x) => ResponseEventView::Finished(x.deep_view()),
        }
    }
}

/// Something that the client is to do.
#[derive(Debug, PartialEq)]
pub enum ClientAction {
    /// Add messages to a task.
    AddMessagesToTask { task_id: String, messages: Vec<TaskMessage> },
}

/// Something that the client is to do.
pub enum ClientActionView {
    AddMessagesToTask { task_id: Seq<char>, messages: Seq<TaskMessageView> },
}

impl DeepView for ClientAction {
    type V = ClientActionView;

    open spec fn deep_view(&self) -> ClientActionView {
        match *self {
            ClientAction::AddMessagesToTask { task_id, messages } =>
                ClientActionView::AddMessagesToTask {
                    task_id: task_id@,
                    messages: messages.deep_view(),
                },
        }
    }
}

/// How a response ended. It tells neither usage nor cost.
#[derive(Debug, PartialEq)]
pub struct StreamFinished {
    pub reason: FinishReason,
    pub should_refresh_model_config: bool,
}

/// How a response ended. It tells neither usage nor cost.
pub struct StreamFinishedView {
    pub reason: FinishReasonView,
    pub should_refresh_model_config: bool,
}

impl DeepView for StreamFinished {
    type V = StreamFinishedView;

    open spec fn deep_view(&self) -> StreamFinishedView {
        StreamFinishedView {
            reason: self.reason.deep_view(),
            should_refresh_model_config: self.should_refresh_model_config,
        }
    }
}

/// Why a response ended.
#[derive(Debug, PartialEq)]
pub enum FinishReason {
    /// All is said.
    Done,
}

/// Why a response ended.
pub enum FinishReasonView {
    Done,
}

impl DeepView for FinishReason {
    type V = FinishReasonView;

    open spec fn deep_view(&self) -> FinishReasonView {
        match *self {
            FinishReason::Done => FinishReasonView::Done,
        }
    }
}

} // verus!
