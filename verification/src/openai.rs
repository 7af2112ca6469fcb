//! The messages of an OpenAI-compatible chat endpoint.
use vstd::prelude::*;

use crate::error::{
    failure, result_view, sse_error, sse_failure, sse_item, sse_payload, AIApiError,
    AIApiErrorView, SseError, SseEvent,
};
use crate::http::{HttpHead, HttpHeadView};
use crate::json::{Json, JsonView};
use crate::text::{same_opt_text, same_text, trim_end_slashes, trimmed, without_end_slashes};

verus! {

/// A streaming chat-completions request.
#[derive(Debug, Clone)]
pub struct ChatRequest {
    pub model: String,
    pub messages: Vec<ChatMessage>,
    pub tools: Vec<ToolDefinition>,
    pub stream: bool,
}

/// A streaming chat-completions request.
pub struct ChatRequestView {
    pub model: Seq<char>,
    pub messages: Seq<ChatMessageView>,
    pub tools: Seq<ToolDefinitionView>,
    pub stream: bool,
}

impl DeepView for ChatRequest {
    type V = ChatRequestView;

    open spec fn deep_view(&self) -> ChatRequestView {
        ChatRequestView {
            model: self.model@,
            messages: self.messages.deep_view(),
            tools: self.tools.deep_view(),
            stream: self.stream,
        }
    }
}

/// A message of a chat.
#[derive(Debug, Clone)]
pub struct ChatMessage {
    pub role: String,
    pub content: Option<String>,
    pub tool_calls: Option<Vec<ChatToolCall>>,
    pub tool_call_id: Option<String>,
    pub name: Option<String>,
}

/// A message of a chat.
pub struct ChatMessageView {
    pub role: Seq<char>,
    pub content: Option<Seq<char>>,
    pub tool_calls: Option<Seq<ChatToolCallView>>,
    pub tool_call_id: Option<Seq<char>>,
    pub name: Option<Seq<char>>,
}

impl DeepView for ChatMessage {
    type V = ChatMessageView;

    open spec fn deep_view(&self) -> ChatMessageView {
        ChatMessageView {
            role: self.role@,
            content: self.content.deep_view(),
            tool_calls: self.tool_calls.deep_view(),
            tool_call_id: self.tool_call_id.deep_view(),
            name: self.name.deep_view(),
        }
    }
}

impl ChatMessageView {
    /// A message of the user.
    pub open spec fn user(content: Seq<char>) -> ChatMessageView {
        ChatMessageView {
            role: "user"@,
            content: Some(content),
            tool_calls: None,
            tool_call_id: None,
            name: None,
        }
    }

    /// Text of the assistant.
    pub open spec fn assistant(content: Seq<char>) -> ChatMessageView {
        ChatMessageView {
            role: "assistant"@,
            content: Some(content),
            tool_calls: None,
            tool_call_id: None,
            name: None,
        }
    }

    /// Calls of tools by the assistant.
    pub open spec fn assistant_tool_calls(tool_calls: Seq<ChatToolCallView>) -> ChatMessageView {
        ChatMessageView {
            role: "assistant"@,
            content: None,
            tool_calls: Some(tool_calls),
            tool_call_id: None,
            name: None,
        }
    }

    /// The result of a call.
    pub open spec fn tool(tool_call_id: Seq<char>, content: Seq<char>) -> ChatMessageView {
        ChatMessageView {
            role: "tool"@,
            content: Some(content),
            tool_calls: None,
            tool_call_id: Some(tool_call_id),
            name: None,
        }
    }
}

impl ChatMessage {
    /// A message of the user.
    pub fn user(content: String) -> (r: Self)
        ensures
            r.deep_view() == ChatMessageView::user(content@),
    {
        ChatMessage {
            role: "user".to_string(),
            content: Some(content),
            tool_calls: None,
            tool_call_id: None,
            name: None,
        }
    }

    /// Text of the assistant.
    pub fn assistant(content: String) -> (r: Self)
        ensures
            r.deep_view() == ChatMessageView::assistant(content@),
    {
        ChatMessage {
            role: "assistant".to_string(),
            content: Some(content),
            tool_calls: None,
            tool_call_id: None,
            name: None,
        }
    }

    /// Calls of tools by the assistant.
    pub fn assistant_tool_calls(tool_calls: Vec<ChatToolCall>) -> (r: Self)
        ensures
            r.deep_view() == ChatMessageView::assistant_tool_calls(tool_calls.deep_view()),
    {
        ChatMessage {
            role: "assistant".to_string(),
            content: None,
            tool_calls: Some(tool_calls),
            tool_call_id: None,
            name: None,
        }
    }

    /// The result of a call.
    pub fn tool(tool_call_id: String, content: String) -> (r: Self)
        ensures
            r.deep_view() == ChatMessageView::tool(tool_call_id@, content@),
    {
        ChatMessage {
            role: "tool".to_string(),
            content: Some(content),
            tool_calls: None,
            tool_call_id: Some(tool_call_id),
            name: None,
        }
    }
}

/// A call of a tool.
#[derive(Debug, Clone)]
pub struct ChatToolCall {
    pub id: String,
    pub kind: String,
    pub function: ChatToolCallFunction,
}

/// A call of a tool.
pub struct ChatToolCallView {
    pub id: Seq<char>,
    pub kind: Seq<char>,
    pub function: ChatToolCallFunctionView,
}

impl DeepView for ChatToolCall {
    type V = ChatToolCallView;

    open spec fn deep_view(&self) -> ChatToolCallView {
        ChatToolCallView {
            id: self.id@,
            kind: self.kind@,
            function: self.function.deep_view(),
        }
    }
}

/// The function that a call names, and its arguments as JSON text.
#[derive(Debug, Clone)]
pub struct ChatToolCallFunction {
    pub name: String,
    pub arguments: String,
}

/// The function that a call names, and its arguments as JSON text.
pub struct ChatToolCallFunctionView {
    pub name: Seq<char>,
    pub arguments: Seq<char>,
}

impl DeepView for ChatToolCallFunction {
    type V = ChatToolCallFunctionView;

    open spec fn deep_view(&self) -> ChatToolCallFunctionView {
        ChatToolCallFunctionView { name: self.name@, arguments: self.arguments@ }
    }
}

/// A tool that the model may call.
#[derive(Debug, Clone)]
pub struct ToolDefinition {
    pub kind: String,
    pub function: ToolFunctionDefinition,
}

/// A tool that the model may call.
pub struct ToolDefinitionView {
    pub kind: Seq<char>,
    pub function: ToolFunctionDefinitionView,
}

impl DeepView for ToolDefinition {
    type V = ToolDefinitionView;

    open spec fn deep_view(&self) -> ToolDefinitionView {
        ToolDefinitionView { kind: self.kind@, function: self.function.deep_view() }
    }
}

/// The function of a tool: its name, what it does, and the JSON schema of its arguments.
#[derive(Debug, Clone)]
pub struct ToolFunctionDefinition {
    pub name: String,
    pub description: String,
    pub parameters: Json,
}

/// The function of a tool.
pub struct ToolFunctionDefinitionView {
    pub name: Seq<char>,
    pub description: Seq<char>,
    pub parameters: JsonView,
}

impl DeepView for ToolFunctionDefinition {
    type V = ToolFunctionDefinitionView;

    open spec fn deep_view(&self) -> ToolFunctionDefinitionView {
        ToolFunctionDefinitionView {
            name: self.name@,
            description: self.description@,
            parameters: self.parameters.deep_view(),
        }
    }
}

impl ToolDefinitionView {
    /// A function that the model may call.
    pub open spec fn function(
        name: Seq<char>,
        description: Seq<char>,
        parameters: JsonView,
    ) -> ToolDefinitionView {
        ToolDefinitionView {
            kind: "function"@,
            function: ToolFunctionDefinitionView { name, description, parameters },
        }
    }
}

impl ToolDefinition {
    /// A function that the model may call.
    pub fn function(name: &str, description: &str, parameters: Json) -> (r: Self)
        ensures
            r.deep_view() == ToolDefinitionView::function(
                name@,
                description@,
                parameters.deep_view(),
            ),
    {
        ToolDefinition {
            kind: "function".to_string(),
            function: ToolFunctionDefinition {
                name: name.to_string(),
                description: description.to_string(),
                parameters,
            },
        }
    }
}

impl PartialEq for ChatToolCall {
    fn eq(&self, other: &Self) -> (r: bool) {
        same_text(self.id.as_str(), other.id.as_str()) && same_text(
            self.kind.as_str(),
            other.kind.as_str(),
        ) && same_text(self.function.name.as_str(), other.function.name.as_str()) && same_text(
            self.function.arguments.as_str(),
            other.function.arguments.as_str(),
        )
    }
}

impl vstd::std_specs::cmp::PartialEqSpecImpl for ChatToolCall {
    open spec fn obeys_eq_spec() -> bool {
        true
    }

    open spec fn eq_spec(&self, other: &Self) -> bool {
        self.deep_view() == other.deep_view()
    }
}

fn same_calls(a: &Vec<ChatToolCall>, b: &Vec<ChatToolCall>) -> (r: bool)
    ensures
        r == (a.deep_view() == b.deep_view()),
{
    if a.len() != b.len() {
        assert(a.deep_view().len() != b.deep_view().len());
        return false;
    }
    for i in 0..a.len()
        invariant
            a@.len() == b@.len(),
            forall|j: int| 0 <= j < i ==> (#[trigger] a@[j]).deep_view() == b@[j].deep_view(),
    {
        if a[i] != b[i] {
            assert(a.deep_view()[i as int] != b.deep_view()[i as int]);
            return false;
        }
    }
    assert(a.deep_view() =~= b.deep_view());
    true
}

impl PartialEq for ChatMessage {
    fn eq(&self, other: &Self) -> (r: bool) {
        let calls = match (&self.tool_calls, &other.tool_calls) {
            (Some(a), Some(b)) => same_calls(a, b),
            (None, None) => true,
            _ => false,
        };
        calls && same_text(self.role.as_str(), other.role.as_str()) && same_opt_text(
            &self.content,
            &other.content,
        ) && same_opt_text(&self.tool_call_id, &other.tool_call_id) && same_opt_text(
            &self.name,
            &other.name,
        )
    }
}

impl vstd::std_specs::cmp::PartialEqSpecImpl for ChatMessage {
    open spec fn obeys_eq_spec() -> bool {
        true
    }

    open spec fn eq_spec(&self, other: &Self) -> bool {
        self.deep_view() == other.deep_view()
    }
}

/// A part of a streamed answer.
#[derive(Debug)]
pub struct ChatCompletionChunk {
    pub choices: Vec<ChunkChoice>,
}

/// A part of a streamed answer.
pub struct ChatCompletionChunkView {
    pub choices: Seq<ChunkChoiceView>,
}

impl DeepView for ChatCompletionChunk {
    type V = ChatCompletionChunkView;

    open spec fn deep_view(&self) -> ChatCompletionChunkView {
        ChatCompletionChunkView { choices: self.choices.deep_view() }
    }
}

/// What a part adds to one of the answers.
#[derive(Debug)]
pub struct ChunkChoice {
    pub delta: Delta,
    pub finish_reason: Option<String>,
}

/// What a part adds to one of the answers.
pub struct ChunkChoiceView {
    pub delta: DeltaView,
    pub finish_reason: Option<Seq<char>>,
}

impl DeepView for ChunkChoice {
    type V = ChunkChoiceView;

    open spec fn deep_view(&self) -> ChunkChoiceView {
        ChunkChoiceView {
            delta: self.delta.deep_view(),
            finish_reason: self.finish_reason.deep_view(),
        }
    }
}

/// Text and parts of tool calls.
#[derive(Debug, Default)]
pub struct Delta {
    pub content: Option<String>,
    pub tool_calls: Vec<ToolCallDelta>,
}

/// Text and parts of tool calls.
pub struct DeltaView {
    pub content: Option<Seq<char>>,
    pub tool_calls: Seq<ToolCallDeltaView>,
}

impl DeepView for Delta {
    type V = DeltaView;

    open spec fn deep_view(&self) -> DeltaView {
        DeltaView { content: self.content.deep_view(), tool_calls: self.tool_calls.deep_view() }
    }
}

/// A part of a tool call.
#[derive(Debug, Default)]
pub struct ToolCallDelta {
    pub index: Option<usize>,
    pub id: Option<String>,
    pub function: Option<ToolCallFunctionDelta>,
}

/// A part of a tool call.
pub struct ToolCallDeltaView {
    pub index: Option<usize>,
    pub id: Option<Seq<char>>,
    pub function: Option<ToolCallFunctionDeltaView>,
}

impl DeepView for ToolCallDelta {
    type V = ToolCallDeltaView;

    open spec fn deep_view(&self) -> ToolCallDeltaView {
        ToolCallDeltaView {
            index: self.index,
            id: self.id.deep_view(),
            function: self.function.deep_view(),
        }
    }
}

/// Parts of a call's function name and arguments.
#[derive(Debug, Default)]
pub struct ToolCallFunctionDelta {
    pub name: Option<String>,
    pub arguments: Option<String>,
}

/// Parts of a call's function name and arguments.
pub struct ToolCallFunctionDeltaView {
    pub name: Option<Seq<char>>,
    pub arguments: Option<Seq<char>>,
}

impl DeepView for ToolCallFunctionDelta {
    type V = ToolCallFunctionDeltaView;

    open spec fn deep_view(&self) -> ToolCallFunctionDeltaView {
        ToolCallFunctionDeltaView {
            name: self.name.deep_view(),
            arguments: self.arguments.deep_view(),
        }
    }
}

/// The address of the chat-completions endpoint.
pub open spec fn completions_url(endpoint_url: Seq<char>) -> Seq<char> {
    without_end_slashes(endpoint_url) + "/chat/completions"@
}

/// Where a chat-completions request goes, and its headers.
pub open spec fn completions_head(
    endpoint_url: Seq<char>,
    api_key: Option<Seq<char>>,
) -> HttpHeadView {
    let content_type = ("content-type"@, "application/json"@);
    HttpHeadView {
        url: completions_url(endpoint_url),
        headers: match api_key {
            Some(key) => seq![content_type, ("authorization"@, "Bearer "@ + key)],
            None => seq![content_type],
        },
    }
}

/// Where a chat-completions request goes, and its headers.
pub fn chat_completions_head(endpoint_url: &str, api_key: Option<&str>) -> (r: HttpHead)
    ensures
        r.deep_view() == completions_head(endpoint_url@, api_key.deep_view()),
{
    let mut url = trim_end_slashes(endpoint_url).to_string();
    url.append("/chat/completions");
    let mut head = HttpHead::new(url);
    head.push("content-type", "application/json");
    if let Some(key) = api_key {
        let mut bearer = "Bearer ".to_string();
        bearer.append(key);
        head.push("authorization", bearer.as_str());
    }
    assert(head.deep_view().headers =~= completions_head(
        endpoint_url@,
        api_key.deep_view(),
    ).headers);
    head
}

/// The error for a request that cannot be written down.
pub fn serialize_error(error: &str) -> (r: AIApiError)
    ensures
        r.deep_view() == AIApiErrorView::Other(
            "Failed to serialize local chat request: "@ + error@,
        ),
{
    failure("Failed to serialize local chat request: ", error)
}

/// The error for a request that cannot be sent.
pub fn connect_error(error: &str) -> (r: AIApiError)
    ensures
        r.deep_view() == AIApiErrorView::Other("Failed to connect to local endpoint: "@ + error@),
{
    failure("Failed to connect to local endpoint: ", error)
}

/// The error for a failed event stream.
pub fn map_eventsource_error(error: SseError) -> (r: AIApiError)
    ensures
        r.deep_view() == sse_failure(error.deep_view(), "Local SSE error: "@),
{
    sse_error(error, "Local SSE error: ")
}

/// What the reader of the stream gets of an event: the data of a message that has some,
/// or the error.
pub fn stream_item(event: SseEvent) -> (r: Option<Result<String, AIApiError>>)
    ensures
        match (r, sse_payload(event.deep_view(), "Local SSE error: "@)) {
            (Some(item), Some(payload)) => result_view(item) == payload,
            (None, None) => true,
            _ => false,
        },
{
    sse_item(event, "Local SSE error: ")
}

/// What a payload of the stream is: the end of the stream, the chunk that it decodes to,
/// or the error for one that does not decode.
pub open spec fn chunk_of(
    data: Seq<char>,
    decoded: Result<ChatCompletionChunkView, Seq<char>>,
) -> Result<Option<ChatCompletionChunkView>, AIApiErrorView> {
    if trimmed(data) == "[DONE]"@ {
        Ok(None)
    } else {
        match decoded {
            Ok(chunk) => Ok(Some(chunk)),
            Err(error) => Err(
                AIApiErrorView::Other(
                    "Failed to parse local SSE chunk: "@ + error + "; data="@ + data,
                ),
            ),
        }
    }
}

/// What a payload of the stream is, where `decoded` is the chunk that the payload decodes
/// to, or the decoder's error.
pub fn parse_chunk(data: &str, decoded: Result<ChatCompletionChunk, String>) -> (r: Result<
    Option<ChatCompletionChunk>,
    AIApiError,
>)
    ensures
        result_view(r) == chunk_of(data@, result_view(decoded)),
{
    if same_text(data.trim(), "[DONE]") {
        return Ok(None);
    }
    match decoded {
        Ok(chunk) => Ok(Some(chunk)),
        Err(error) => {
            let mut message = "Failed to parse local SSE chunk: ".to_string();
            message.append(error.as_str());
            message.append("; data=");
            message.append(data);
            Err(AIApiError::Other(message))
        },
    }
}

} // verus!
