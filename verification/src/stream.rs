//! How an answer grows with what the provider's stream tells.
use std::collections::BTreeMap;

use vstd::prelude::*;

use crate::anthropic::{data_event, parse_stream_event, StreamEvent, StreamEventView};
use crate::calls::{
    call_at, input_text, merge_tool_call_delta, merged, normalize_partial_tool_input,
    normalize_tool_input_json, pending_view, put_call, rewritten_input, take_call, PendingCalls,
    PendingToolCall, PendingToolCallView,
};
use crate::error::{result_view, AIApiError, AIApiErrorView};
use crate::json::JsonView;
use crate::openai::{
    chunk_of, parse_chunk, ChatCompletionChunk, ChatCompletionChunkView, ChunkChoice,
    ChunkChoiceView, ToolCallDelta, ToolCallDeltaView,
};
use crate::text::same_text;

verus! {

/// An answer as far as the provider has told it.
#[derive(Debug)]
pub struct Answer {
    pub full_text: String,
    pub pending_tool_calls: BTreeMap<usize, PendingToolCall>,
}

/// An answer as far as the provider has told it.
pub struct AnswerView {
    pub text: Seq<char>,
    pub calls: PendingCalls,
}

impl DeepView for Answer {
    type V = AnswerView;

    open spec fn deep_view(&self) -> AnswerView {
        AnswerView { text: self.full_text@, calls: pending_view(self.pending_tool_calls@) }
    }
}

impl AnswerView {
    /// An answer of which nothing is told yet.
    pub open spec fn untold() -> AnswerView {
        AnswerView { text: Seq::empty(), calls: Map::empty() }
    }
}

/// Whether the reader of a provider's stream reads on.
#[derive(Debug)]
pub enum StreamControl {
    /// It reads on.
    Continue,
    /// The answer is complete.
    Break,
    /// The response ends with this error.
    Fail(AIApiError),
}

/// Whether the reader of a provider's stream reads on.
pub enum StreamControlView {
    Continue,
    Break,
    Fail(AIApiErrorView),
}

impl DeepView for StreamControl {
    type V = StreamControlView;

    open spec fn deep_view(&self) -> StreamControlView {
        match *self {
            StreamControl::Continue => StreamControlView::Continue,
            StreamControl::Break => StreamControlView::Break,
            StreamControl::Fail(error) => StreamControlView::Fail(error.deep_view()),
        }
    }
}

/// What the reader of a provider's stream gets.
#[derive(Debug)]
pub enum StreamInput {
    /// The stream failed.
    Failed(AIApiError),
    /// Data of a chat-completions stream, and what it decodes to.
    ChatData { data: String, decoded: Result<ChatCompletionChunk, String> },
    /// Data of a messages stream.
    MessagesData(String),
}

/// What the reader of a provider's stream gets.
pub enum StreamInputView {
    Failed(AIApiErrorView),
    ChatData { data: Seq<char>, decoded: Result<ChatCompletionChunkView, Seq<char>> },
    MessagesData(Seq<char>),
}

impl DeepView for StreamInput {
    type V = StreamInputView;

    open spec fn deep_view(&self) -> StreamInputView {
        match *self {
            StreamInput::Failed(error) => StreamInputView::Failed(error.deep_view()),
            StreamInput::ChatData { data, decoded } => StreamInputView::ChatData {
                data: data@,
                decoded: result_view(decoded),
            },
            StreamInput::MessagesData(data) => StreamInputView::MessagesData(data@),
        }
    }
}

/// An answer after something came, and whether the reader reads on.
pub struct Step {
    pub answer: AnswerView,
    pub control: StreamControlView,
}

/// The error for an answer that a content filter blocked.
pub open spec fn filtered() -> AIApiErrorView {
    AIApiErrorView::Other("Local model response was blocked by a content filter."@)
}

/// The calls with parts added in order.
pub open spec fn merged_all(calls: PendingCalls, deltas: Seq<ToolCallDeltaView>) -> PendingCalls
    decreases deltas.len(),
{
    if deltas.len() == 0 {
        calls
    } else {
        merged(merged_all(calls, deltas.drop_last()), deltas.last())
    }
}

/// An answer with a choice of a chunk added: its text, and its parts of calls.
pub open spec fn with_choice(answer: AnswerView, choice: ChunkChoiceView) -> AnswerView {
    AnswerView {
        text: match choice.delta.content {
            Some(content) => answer.text + content,
            None => answer.text,
        },
        calls: merged_all(answer.calls, choice.delta.tool_calls),
    }
}

/// An answer with choices added in order, up to one that a content filter ended.
pub open spec fn with_choices(answer: AnswerView, choices: Seq<ChunkChoiceView>) -> Step
    decreases choices.len(),
{
    if choices.len() == 0 {
        Step { answer, control: StreamControlView::Continue }
    } else {
        let next = with_choice(answer, choices.first());
        if choices.first().finish_reason == Some("content_filter"@) {
            Step { answer: next, control: StreamControlView::Fail(filtered()) }
        } else {
            with_choices(next, choices.drop_first())
        }
    }
}

/// A call with its input settled: a blank one is an empty object, one that is JSON is
/// written anew, any other stays.
pub open spec fn settled(call: PendingToolCallView) -> PendingToolCallView {
    PendingToolCallView {
        arguments: match rewritten_input(call.arguments) {
            Some(text) => text,
            None => call.arguments,
        },
        ..call
    }
}

/// A call at its start: what the start tells takes the place of what was told before.
pub open spec fn begun(
    call: PendingToolCallView,
    id: Seq<char>,
    name: Seq<char>,
    input: Option<JsonView>,
) -> PendingToolCallView {
    PendingToolCallView {
        id: if id.len() > 0 {
            id
        } else {
            call.id
        },
        name: if name.len() > 0 {
            name
        } else {
            call.name
        },
        arguments: match input {
            Some(input) => if input == JsonView::Object(Map::empty()) {
                Seq::empty()
            } else {
                input_text(input)
            },
            None => call.arguments,
        },
    }
}

/// The error that a provider's own error becomes.
pub open spec fn provider_failure(kind: Seq<char>, message: Seq<char>) -> AIApiErrorView {
    if kind == "overloaded_error"@ {
        AIApiErrorView::ServerOverloaded
    } else {
        AIApiErrorView::Other("Anthropic stream error ("@ + kind + "): "@ + message)
    }
}

/// An answer after an event of a messages stream.
pub open spec fn after_event(answer: AnswerView, event: StreamEventView) -> Step {
    match event {
        StreamEventView::TextDelta(text) => Step {
            answer: AnswerView { text: answer.text + text, ..answer },
            control: StreamControlView::Continue,
        },
        StreamEventView::ToolUseStart { index, id, name, input } => Step {
            answer: AnswerView {
                calls: answer.calls.insert(
                    index,
                    begun(call_at(answer.calls, index), id, name, input),
                ),
                ..answer
            },
            control: StreamControlView::Continue,
        },
        StreamEventView::ToolUseInputDelta { index, partial_json } => {
            let call = call_at(answer.calls, index);
            Step {
                answer: AnswerView {
                    calls: answer.calls.insert(
                        index,
                        PendingToolCallView { arguments: call.arguments + partial_json, ..call },
                    ),
                    ..answer
                },
                control: StreamControlView::Continue,
            }
        },
        StreamEventView::ToolUseStop { index } => Step {
            answer: if answer.calls.contains_key(index) {
                AnswerView {
                    calls: answer.calls.insert(index, settled(answer.calls[index])),
                    ..answer
                }
            } else {
                answer
            },
            control: StreamControlView::Continue,
        },
        StreamEventView::MessageStop => Step { answer, control: StreamControlView::Break },
        StreamEventView::ContentFiltered => Step {
            answer,
            control: StreamControlView::Fail(filtered()),
        },
        StreamEventView::Error { kind, message } => Step {
            answer,
            control: StreamControlView::Fail(provider_failure(kind, message)),
        },
    }
}

/// An answer after something came from the provider.
pub open spec fn after_input(answer: AnswerView, input: StreamInputView) -> Step {
    match input {
        StreamInputView::Failed(error) => Step { answer, control: StreamControlView::Fail(error) },
        StreamInputView::ChatData { data, decoded } => match chunk_of(data, decoded) {
            Ok(Some(chunk)) => with_choices(answer, chunk.choices),
            Ok(None) => Step { answer, control: StreamControlView::Break },
            Err(error) => Step { answer, control: StreamControlView::Fail(error) },
        },
        StreamInputView::MessagesData(data) => match data_event(data) {
            Ok(Some(event)) => after_event(answer, event),
            Ok(None) => Step { answer, control: StreamControlView::Continue },
            Err(error) => Step { answer, control: StreamControlView::Fail(error) },
        },
    }
}

impl Answer {
    /// An answer of which nothing is told yet.
    pub fn new() -> (r: Answer)
        ensures
            r.deep_view() == AnswerView::untold(),
    {
        let answer = Answer { full_text: String::new(), pending_tool_calls: BTreeMap::new() };
        assert(answer.deep_view().calls =~= Map::empty());
        answer
    }

    /// Adds a choice of a chunk.
    fn add_choice(&mut self, content: Option<String>, tool_calls: Vec<ToolCallDelta>)
        ensures
            final(self).deep_view().text == (match content.deep_view() {
                Some(content) => old(self).deep_view().text + content,
                None => old(self).deep_view().text,
            }),
            final(self).deep_view().calls == merged_all(
                old(self).deep_view().calls,
                tool_calls.deep_view(),
            ),
    {
        if let Some(content) = content {
            self.full_text.append(content.as_str());
        }
        let ghost text = self.full_text@;
        let ghost calls = self.deep_view().calls;
        let ghost deltas = tool_calls.deep_view();
        assert(deltas.take(0) =~= Seq::empty());
        for delta in it: tool_calls
            invariant
                it.seq() == tool_calls@,
                deltas == tool_calls.deep_view(),
                self.full_text@ == text,
                self.deep_view().calls == merged_all(calls, deltas.take(it.index())),
        {
            let ghost k = it.index();
            assert(deltas.take(k + 1).drop_last() =~= deltas.take(k));
            assert(deltas.take(k + 1).last() == delta.deep_view());
            merge_tool_call_delta(&mut self.pending_tool_calls, delta);
        }
        assert(deltas.take(deltas.len() as int) =~= deltas);
    }

    /// Adds the choices of a chunk.
    pub fn apply_chunk(&mut self, chunk: ChatCompletionChunk) -> (r: StreamControl)
        ensures
            with_choices(old(self).deep_view(), chunk.deep_view().choices) == (Step {
                answer: final(self).deep_view(),
                control: r.deep_view(),
            }),
    {
        let choices = chunk.choices;
        let ghost start = self.deep_view();
        let ghost views = choices.deep_view();
        assert(views.skip(0) =~= views);
        for choice in it: choices
            invariant
                it.seq() == choices@,
                views == choices.deep_view(),
                views == chunk.deep_view().choices,
                start == old(self).deep_view(),
                with_choices(start, views) == with_choices(
                    self.deep_view(),
                    views.skip(it.index()),
                ),
        {
            let ghost k = it.index();
            let ghost rest = views.skip(k);
            assert(rest.first() == choice.deep_view());
            assert(rest.drop_first() =~= views.skip(k + 1));
            let ChunkChoice { delta, finish_reason } = choice;
            self.add_choice(delta.content, delta.tool_calls);
            if let Some(reason) = finish_reason {
                if same_text(reason.as_str(), "content_filter") {
                    return StreamControl::Fail(content_filter_error());
                }
            }
        }
        StreamControl::Continue
    }

    /// Adds what an event of a messages stream tells.
    pub fn apply_event(&mut self, event: StreamEvent) -> (r: StreamControl)
        ensures
            after_event(old(self).deep_view(), event.deep_view()) == (Step {
                answer: final(self).deep_view(),
                control: r.deep_view(),
            }),
    {
        let ghost start = self.deep_view();
        match event {
            StreamEvent::TextDelta(delta) => {
                self.full_text.append(delta.as_str());
                StreamControl::Continue
            },
            StreamEvent::ToolUseStart { index, id, name, input } => {
                let mut entry = take_call(&mut self.pending_tool_calls, index);
                if !id.as_str().is_empty() {
                    entry.id = id;
                }
                if !name.as_str().is_empty() {
                    entry.name = name;
                }
                if let Some(input) = input {
                    entry.arguments = if input.is_empty_object() {
                        String::new()
                    } else {
                        normalize_tool_input_json(&input)
                    };
                }
                put_call(&mut self.pending_tool_calls, index, entry);
                assert(self.deep_view().calls =~= start.calls.insert(index, entry.deep_view()));
                StreamControl::Continue
            },
            StreamEvent::ToolUseInputDelta { index, partial_json } => {
                let mut entry = take_call(&mut self.pending_tool_calls, index);
                entry.arguments.append(partial_json.as_str());
                put_call(&mut self.pending_tool_calls, index, entry);
                assert(self.deep_view().calls =~= start.calls.insert(index, entry.deep_view()));
                StreamControl::Continue
            },
            StreamEvent::ToolUseStop { index } => {
                broadcast use vstd::laws_cmp::group_laws_cmp;

                if self.pending_tool_calls.contains_key(&index) {
                    let mut entry = take_call(&mut self.pending_tool_calls, index);
                    if let Some(text) = normalize_partial_tool_input(entry.arguments.as_str()) {
                        entry.arguments = text;
                    }
                    put_call(&mut self.pending_tool_calls, index, entry);
                    assert(self.deep_view().calls =~= start.calls.insert(
                        index,
                        entry.deep_view(),
                    ));
                }
                StreamControl::Continue
            },
            StreamEvent::MessageStop => StreamControl::Break,
            StreamEvent::ContentFiltered => StreamControl::Fail(content_filter_error()),
            StreamEvent::Error { kind, message } => StreamControl::Fail(
                provider_error(kind.as_str(), message.as_str()),
            ),
        }
    }

    /// Adds what came from the provider.
    pub fn accept(&mut self, input: StreamInput) -> (r: StreamControl)
        ensures
            after_input(old(self).deep_view(), input.deep_view()) == (Step {
                answer: final(self).deep_view(),
                control: r.deep_view(),
            }),
    {
        match input {
            StreamInput::Failed(error) => StreamControl::Fail(error),
            StreamInput::ChatData { data, decoded } => match parse_chunk(data.as_str(), decoded) {
                Ok(Some(chunk)) => self.apply_chunk(chunk),
                Ok(None) => StreamControl::Break,
                Err(error) => StreamControl::Fail(error),
            },
            StreamInput::MessagesData(data) => match parse_stream_event(data.as_str()) {
                Ok(Some(event)) => self.apply_event(event),
                Ok(None) => StreamControl::Continue,
                Err(error) => StreamControl::Fail(error),
            },
        }
    }
}

fn content_filter_error() -> (r: AIApiError)
    ensures
        r.deep_view() == filtered(),
{
    AIApiError::Other("Local model response was blocked by a content filter.".to_string())
}

/// The error that a provider's own error becomes.
pub fn provider_error(kind: &str, message: &str) -> (r: AIApiError)
    ensures
        r.deep_view() == provider_failure(kind@, message@),
{
    if same_text(kind, "overloaded_error") {
        AIApiError::ServerOverloaded
    } else {
        let mut text = "Anthropic stream error (".to_string();
        text.append(kind);
        text.append("): ");
        text.append(message);
        AIApiError::Other(text)
    }
}

} // verus!
