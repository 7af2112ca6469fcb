//! The messages and stream events of an Anthropic messages endpoint.
use vstd::prelude::*;

use crate::error::{
    failure, result_view, sse_error, sse_failure, sse_item, sse_payload, AIApiError,
    AIApiErrorView, SseError, SseEvent,
};
use crate::http::{HttpHead, HttpHeadView};
use crate::json::{json_get, json_get_str, json_parse, json_u64, Json, JsonView};
use crate::text::{ends_with, same_text, trim_end_slashes, trimmed, without_end_slashes};

verus! {

/// A streaming messages request.
#[derive(Debug, Clone)]
pub struct MessagesRequest {
    pub model: String,
    pub messages: Vec<Message>,
    pub tools: Vec<ToolDefinition>,
    pub max_tokens: u32,
    pub stream: bool,
}

/// A streaming messages request.
pub struct MessagesRequestView {
    pub model: Seq<char>,
    pub messages: Seq<MessageView>,
    pub tools: Seq<ToolDefinitionView>,
    pub max_tokens: u32,
    pub stream: bool,
}

impl DeepView for MessagesRequest {
    type V = MessagesRequestView;

    open spec fn deep_view(&self) -> MessagesRequestView {
        MessagesRequestView {
            model: self.model@,
            messages: self.messages.deep_view(),
            tools: self.tools.deep_view(),
            max_tokens: self.max_tokens,
            stream: self.stream,
        }
    }
}

/// A message of a conversation.
#[derive(Debug, Clone)]
pub struct Message {
    pub role: String,
    pub content: Vec<ContentBlock>,
}

/// A message of a conversation.
pub struct MessageView {
    pub role: Seq<char>,
    pub content: Seq<ContentBlockView>,
}

impl DeepView for Message {
    type V = MessageView;

    open spec fn deep_view(&self) -> MessageView {
        MessageView { role: self.role@, content: self.content.deep_view() }
    }
}

impl MessageView {
    /// A message of the user.
    pub open spec fn user(content: Seq<ContentBlockView>) -> MessageView {
        MessageView { role: "user"@, content }
    }

    /// A message of the assistant.
    pub open spec fn assistant(content: Seq<ContentBlockView>) -> MessageView {
        MessageView { role: "assistant"@, content }
    }
}

impl Message {
    /// A message of the user.
    pub fn user(content: Vec<ContentBlock>) -> (r: Self)
        ensures
            r.deep_view() == MessageView::user(content.deep_view()),
    {
        Message { role: "user".to_string(), content }
    }

    /// A message of the assistant.
    pub fn assistant(content: Vec<ContentBlock>) -> (r: Self)
        ensures
            r.deep_view() == MessageView::assistant(content.deep_view()),
    {
        Message { role: "assistant".to_string(), content }
    }
}

/// A block of a message.
#[derive(Debug, Clone)]
pub enum ContentBlock {
    Text { text: String },
    ToolUse { id: String, name: String, input: Json },
    ToolResult { tool_use_id: String, content: String },
}

/// A block of a message.
pub enum ContentBlockView {
    Text { text: Seq<char> },
    ToolUse { id: Seq<char>, name: Seq<char>, input: JsonView },
    ToolResult { tool_use_id: Seq<char>, content: Seq<char> },
}

impl DeepView for ContentBlock {
    type V = ContentBlockView;

    open spec fn deep_view(&self) -> ContentBlockView {
        match *self {
            ContentBlock::Text { text } => ContentBlockView::Text { text: text@ },
            ContentBlock::ToolUse { id, name, input } => ContentBlockView::ToolUse {
                id: id@,
                name: name@,
                input: input.deep_view(),
            },
            ContentBlock::ToolResult { tool_use_id, content } => ContentBlockView::ToolResult {
                tool_use_id: tool_use_id@,
                content: content@,
            },
        }
    }
}

impl ContentBlock {
    /// Text.
    pub fn text(text: String) -> (r: Self)
        ensures
            r.deep_view() == (ContentBlockView::Text { text: text@ }),
    {
        ContentBlock::Text { text }
    }

    /// A call of a tool.
    pub fn tool_use(id: String, name: String, input: Json) -> (r: Self)
        ensures
            r.deep_view() == (ContentBlockView::ToolUse {
                id: id@,
                name: name@,
                input: input.deep_view(),
            }),
    {
        ContentBlock::ToolUse { id, name, input }
    }

    /// The result of a call.
    pub fn tool_result(tool_use_id: String, content: String) -> (r: Self)
        ensures
            r.deep_view() == (ContentBlockView::ToolResult {
                tool_use_id: tool_use_id@,
                content: content@,
            }),
    {
        ContentBlock::ToolResult { tool_use_id, content }
    }
}

/// A tool that the model may use, with the JSON schema of its input.
#[derive(Debug, Clone)]
pub struct ToolDefinition {
    pub name: String,
    pub description: String,
    pub input_schema: Json,
}

/// A tool that the model may use.
pub struct ToolDefinitionView {
    pub name: Seq<char>,
    pub description: Seq<char>,
    pub input_schema: JsonView,
}

impl DeepView for ToolDefinition {
    type V = ToolDefinitionView;

    open spec fn deep_view(&self) -> ToolDefinitionView {
        ToolDefinitionView {
            name: self.name@,
            description: self.description@,
            input_schema: self.input_schema.deep_view(),
        }
    }
}

impl ToolDefinition {
    /// A tool that the model may use.
    pub fn new(name: String, description: String, input_schema: Json) -> (r: Self)
        ensures
            r.deep_view() == (ToolDefinitionView {
                name: name@,
                description: description@,
                input_schema: input_schema.deep_view(),
            }),
    {
        ToolDefinition { name, description, input_schema }
    }
}

/// What an event of the stream tells.
#[derive(Debug, Clone)]
pub enum StreamEvent {
    TextDelta(String),
    ToolUseStart { index: usize, id: String, name: String, input: Option<Json> },
    ToolUseInputDelta { index: usize, partial_json: String },
    ToolUseStop { index: usize },
    MessageStop,
    ContentFiltered,
    Error { kind: String, message: String },
}

/// What an event of the stream tells.
pub enum StreamEventView {
    TextDelta(Seq<char>),
    ToolUseStart { index: usize, id: Seq<char>, name: Seq<char>, input: Option<JsonView> },
    ToolUseInputDelta { index: usize, partial_json: Seq<char> },
    ToolUseStop { index: usize },
    MessageStop,
    ContentFiltered,
    Error { kind: Seq<char>, message: Seq<char> },
}

impl DeepView for StreamEvent {
    type V = StreamEventView;

    open spec fn deep_view(&self) -> StreamEventView {
        match *self {
            StreamEvent::TextDelta(text) => StreamEventView::TextDelta(text@),
            StreamEvent::ToolUseStart { index, id, name, input } => StreamEventView::ToolUseStart {
                index,
                id: id@,
                name: name@,
                input: input.deep_view(),
            },
            StreamEvent::ToolUseInputDelta { index, partial_json } =>
                StreamEventView::ToolUseInputDelta { index, partial_json: partial_json@ },
            StreamEvent::ToolUseStop { index } => StreamEventView::ToolUseStop { index },
            StreamEvent::MessageStop => StreamEventView::MessageStop,
            StreamEvent::ContentFiltered => StreamEventView::ContentFiltered,
            StreamEvent::Error { kind, message } => StreamEventView::Error {
                kind: kind@,
                message: message@,
            },
        }
    }
}

/// A text, or another where it is missing.
pub open spec fn text_or(text: Option<Seq<char>>, other: Seq<char>) -> Seq<char> {
    match text {
        Some(text) => text,
        None => other,
    }
}

/// The block that an event speaks of; zero where it does not say.
pub open spec fn event_index(payload: JsonView) -> usize {
    match json_get(payload, "index"@) {
        Some(index) => match json_u64(index) {
            Some(n) => n as usize,
            None => 0,
        },
        None => 0,
    }
}

/// An event for text that is not empty.
pub open spec fn text_event(text: Option<Seq<char>>) -> Option<StreamEventView> {
    match text {
        Some(text) if text.len() > 0 => Some(StreamEventView::TextDelta(text)),
        _ => None,
    }
}

/// What the start of a block tells.
pub open spec fn block_start_event(index: usize, block: JsonView) -> Option<StreamEventView> {
    match json_get_str(block, "type"@) {
        None => None,
        Some(block_type) => if block_type == "text"@ {
            text_event(json_get_str(block, "text"@))
        } else if block_type == "tool_use"@ {
            Some(
                StreamEventView::ToolUseStart {
                    index,
                    id: text_or(json_get_str(block, "id"@), Seq::empty()),
                    name: text_or(json_get_str(block, "name"@), Seq::empty()),
                    input: json_get(block, "input"@),
                },
            )
        } else {
            None
        },
    }
}

/// What an addition to a block tells.
pub open spec fn block_delta_event(index: usize, delta: JsonView) -> Option<StreamEventView> {
    match json_get_str(delta, "type"@) {
        None => None,
        Some(delta_type) => if delta_type == "text_delta"@ {
            text_event(json_get_str(delta, "text"@))
        } else if delta_type == "input_json_delta"@ {
            match json_get_str(delta, "partial_json"@) {
                Some(partial_json) if partial_json.len() > 0 => Some(
                    StreamEventView::ToolUseInputDelta { index, partial_json },
                ),
                _ => None,
            }
        } else {
            None
        },
    }
}

/// What the error of an event tells; the event may have none.
pub open spec fn error_event(error: Option<JsonView>) -> StreamEventView {
    let words = |key: Seq<char>|
        match error {
            Some(error) => json_get_str(error, key),
            None => None,
        };
    StreamEventView::Error {
        kind: text_or(words("type"@), "error"@),
        message: text_or(words("message"@), "Unknown Anthropic streaming error."@),
    }
}

/// What the payload of an event tells, if anything.
pub open spec fn payload_event(payload: JsonView) -> Option<StreamEventView> {
    match json_get_str(payload, "type"@) {
        None => None,
        Some(event_type) => if event_type == "content_block_start"@ {
            match json_get(payload, "content_block"@) {
                Some(block) => block_start_event(event_index(payload), block),
                None => None,
            }
        } else if event_type == "content_block_delta"@ {
            match json_get(payload, "delta"@) {
                Some(delta) => block_delta_event(event_index(payload), delta),
                None => None,
            }
        } else if event_type == "content_block_stop"@ {
            Some(StreamEventView::ToolUseStop { index: event_index(payload) })
        } else if event_type == "message_delta"@ {
            match json_get(payload, "delta"@) {
                Some(delta) if json_get_str(delta, "stop_reason"@) == Some("content_filter"@) =>
                    Some(StreamEventView::ContentFiltered),
                _ => None,
            }
        } else if event_type == "message_stop"@ {
            Some(StreamEventView::MessageStop)
        } else if event_type == "error"@ {
            Some(error_event(json_get(payload, "error"@)))
        } else {
            None
        },
    }
}

/// What the data of an event tells: nothing where there is none, or the error for data
/// that is not JSON.
pub open spec fn data_event(data: Seq<char>) -> Result<Option<StreamEventView>, AIApiErrorView> {
    let text = trimmed(data);
    if text.len() == 0 || text == "[DONE]"@ {
        Ok(None)
    } else {
        match json_parse(text) {
            Ok(payload) => Ok(payload_event(payload)),
            Err(error) => Err(
                AIApiErrorView::Other(
                    "Failed to parse anthropic SSE event: "@ + error + "; data="@ + text,
                ),
            ),
        }
    }
}

/// A text of a value as a `String`, or another where it is missing.
fn string_or(text: Option<&str>, other: &str) -> (r: String)
    ensures
        r@ == text_or(text.deep_view(), other@),
{
    match text {
        Some(text) => text.to_string(),
        None => other.to_string(),
    }
}

fn index_of(payload: &Json) -> (r: usize)
    ensures
        r == event_index(payload.deep_view()),
{
    match payload.get("index") {
        Some(index) => match index.as_u64() {
            Some(n) => n as usize,
            None => 0,
        },
        None => 0,
    }
}

fn text_delta(text: Option<&str>) -> (r: Option<StreamEvent>)
    ensures
        r.deep_view() == text_event(text.deep_view()),
{
    match text {
        Some(text) => if text.is_empty() {
            None
        } else {
            Some(StreamEvent::TextDelta(text.to_string()))
        },
        None => None,
    }
}

fn block_start(index: usize, block: Json) -> (r: Option<StreamEvent>)
    ensures
        r.deep_view() == block_start_event(index, block.deep_view()),
{
    let (is_text, is_tool_use) = match block.get_str("type") {
        Some(block_type) => (same_text(block_type, "text"), same_text(block_type, "tool_use")),
        None => return None,
    };
    if is_text {
        text_delta(block.get_str("text"))
    } else if is_tool_use {
        let id = string_or(block.get_str("id"), "");
        let name = string_or(block.get_str("name"), "");
        proof {
            reveal_strlit("");
            assert(""@ =~= Seq::empty());
        }
        Some(StreamEvent::ToolUseStart { index, id, name, input: block.take("input") })
    } else {
        None
    }
}

fn block_delta(index: usize, delta: &Json) -> (r: Option<StreamEvent>)
    ensures
        r.deep_view() == block_delta_event(index, delta.deep_view()),
{
    let delta_type = match delta.get_str("type") {
        Some(delta_type) => delta_type,
        None => return None,
    };
    if same_text(delta_type, "text_delta") {
        text_delta(delta.get_str("text"))
    } else if same_text(delta_type, "input_json_delta") {
        match delta.get_str("partial_json") {
            Some(partial_json) => if partial_json.is_empty() {
                None
            } else {
                Some(
                    StreamEvent::ToolUseInputDelta {
                        index,
                        partial_json: partial_json.to_string(),
                    },
                )
            },
            None => None,
        }
    } else {
        None
    }
}

fn is_filtered(delta: Option<&Json>) -> (r: bool)
    ensures
        r == (delta.deep_view() matches Some(delta) && json_get_str(delta, "stop_reason"@) == Some(
            "content_filter"@,
        )),
{
    match delta {
        Some(delta) => match delta.get_str("stop_reason") {
            Some(reason) => same_text(reason, "content_filter"),
            None => false,
        },
        None => false,
    }
}

fn stream_error(error: Option<&Json>) -> (r: StreamEvent)
    ensures
        r.deep_view() == error_event(error.deep_view()),
{
    let (kind, message) = match error {
        Some(error) => (error.get_str("type"), error.get_str("message")),
        None => (None, None),
    };
    StreamEvent::Error {
        kind: string_or(kind, "error"),
        message: string_or(message, "Unknown Anthropic streaming error."),
    }
}

/// What the payload of an event tells, if anything.
pub fn stream_event_from_payload(payload: Json) -> (r: Option<StreamEvent>)
    ensures
        r.deep_view() == payload_event(payload.deep_view()),
{
    let event_type = match payload.get_str("type") {
        Some(event_type) => event_type.to_string(),
        None => return None,
    };
    let event_type = event_type.as_str();
    if same_text(event_type, "content_block_start") {
        let index = index_of(&payload);
        match payload.take("content_block") {
            Some(block) => block_start(index, block),
            None => None,
        }
    } else if same_text(event_type, "content_block_delta") {
        match payload.get("delta") {
            Some(delta) => block_delta(index_of(&payload), delta),
            None => None,
        }
    } else if same_text(event_type, "content_block_stop") {
        Some(StreamEvent::ToolUseStop { index: index_of(&payload) })
    } else if same_text(event_type, "message_delta") {
        if is_filtered(payload.get("delta")) {
            Some(StreamEvent::ContentFiltered)
        } else {
            None
        }
    } else if same_text(event_type, "message_stop") {
        Some(StreamEvent::MessageStop)
    } else if same_text(event_type, "error") {
        Some(stream_error(payload.get("error")))
    } else {
        None
    }
}

/// What the data of an event tells, if anything.
pub fn parse_stream_event(data: &str) -> (r: Result<Option<StreamEvent>, AIApiError>)
    ensures
        result_view(r) == data_event(data@),
{
    let text = data.trim();
    if text.is_empty() || same_text(text, "[DONE]") {
        return Ok(None);
    }
    match Json::parse(text) {
        Ok(payload) => Ok(stream_event_from_payload(payload)),
        Err(error) => {
            let mut message = "Failed to parse anthropic SSE event: ".to_string();
            message.append(error.as_str());
            message.append("; data=");
            message.append(text);
            Err(AIApiError::Other(message))
        },
    }
}

/// The address of the messages endpoint below an address, which may name it already or
/// name its version.
pub open spec fn messages_url(endpoint_url: Seq<char>) -> Seq<char> {
    let base = without_end_slashes(endpoint_url);
    if "/messages"@.is_suffix_of(base) {
        base
    } else if "/v1"@.is_suffix_of(base) {
        base + "/messages"@
    } else {
        base + "/v1/messages"@
    }
}

/// The address of the messages endpoint.
pub fn messages_endpoint_url(endpoint_url: &str) -> (r: String)
    ensures
        r@ == messages_url(endpoint_url@),
{
    let base = trim_end_slashes(endpoint_url);
    proof {
        lemma_versioned_messages(base@);
    }
    if ends_with(base, "/v1/messages") || ends_with(base, "/messages") {
        base.to_string()
    } else {
        let mut url = base.to_string();
        if ends_with(base, "/v1") {
            url.append("/messages");
        } else {
            url.append("/v1/messages");
        }
        url
    }
}

/// An address that ends in the versioned name ends in the name.
pub proof fn lemma_versioned_messages(s: Seq<char>)
    ensures
        "/v1/messages"@.is_suffix_of(s) ==> "/messages"@.is_suffix_of(s),
{
    reveal_strlit("/v1/messages");
    reveal_strlit("/messages");
    assert("/v1/messages"@.subrange(3, 12) =~= "/messages"@);
    if "/v1/messages"@.is_suffix_of(s) {
        assert(s.subrange(s.len() - 9, s.len() as int) =~= s.subrange(
            s.len() - 12,
            s.len() as int,
        ).subrange(3, 12));
    }
}

/// Where a messages request goes, and its headers.
pub open spec fn messages_head_view(
    endpoint_url: Seq<char>,
    api_key: Option<Seq<char>>,
) -> HttpHeadView {
    let content_type = ("content-type"@, "application/json"@);
    let version = ("anthropic-version"@, "2023-06-01"@);
    HttpHeadView {
        url: messages_url(endpoint_url),
        headers: match api_key {
            Some(key) => seq![
                content_type,
                version,
                ("x-api-key"@, key),
                ("authorization"@, "Bearer "@ + key),
            ],
            None => seq![content_type, version],
        },
    }
}

/// Where a messages request goes, and its headers.
pub fn messages_head(endpoint_url: &str, api_key: Option<&str>) -> (r: HttpHead)
    ensures
        r.deep_view() == messages_head_view(endpoint_url@, api_key.deep_view()),
{
    let mut head = HttpHead::new(messages_endpoint_url(endpoint_url));
    head.push("content-type", "application/json");
    head.push("anthropic-version", "2023-06-01");
    if let Some(key) = api_key {
        head.push("x-api-key", key);
        let mut bearer = "Bearer ".to_string();
        bearer.append(key);
        head.push("authorization", bearer.as_str());
    }
    assert(head.deep_view().headers =~= messages_head_view(
        endpoint_url@,
        api_key.deep_view(),
    ).headers);
    head
}

/// The error for a request that cannot be written down.
pub fn serialize_error(error: &str) -> (r: AIApiError)
    ensures
        r.deep_view() == AIApiErrorView::Other(
            "Failed to serialize anthropic local request: "@ + error@,
        ),
{
    failure("Failed to serialize anthropic local request: ", error)
}

/// The error for a request that cannot be sent.
pub fn connect_error(error: &str) -> (r: AIApiError)
    ensures
        r.deep_view() == AIApiErrorView::Other(
            "Failed to connect to anthropic local endpoint: "@ + error@,
        ),
{
    failure("Failed to connect to anthropic local endpoint: ", error)
}

/// The error for a failed event stream.
pub fn map_eventsource_error(error: SseError) -> (r: AIApiError)
    ensures
        r.deep_view() == sse_failure(error.deep_view(), "Anthropic SSE error: "@),
{
    sse_error(error, "Anthropic SSE error: ")
}

/// What the reader of the stream gets of an event: the data of a message that has some,
/// or the error.
pub fn stream_item(event: SseEvent) -> (r: Option<Result<String, AIApiError>>)
    ensures
        match (r, sse_payload(event.deep_view(), "Anthropic SSE error: "@)) {
            (Some(item), Some(payload)) => result_view(item) == payload,
            (None, None) => true,
            _ => false,
        },
{
    sse_item(event, "Anthropic SSE error: ")
}

} // verus!
