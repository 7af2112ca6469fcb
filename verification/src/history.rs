//! The conversation so far, as the messages that a model is shown.
use vstd::hash_map::StringHashMap;
use vstd::prelude::*;

use crate::anthropic;
use crate::api::{
    AgentInput, AgentInputView, MessageKind, MessageKindView, RequestParams, RequestParamsView,
    Task, TaskMessage, TaskMessageView, TaskView,
};
use crate::calls::or_empty;
use crate::ids::{is_uuid_v4, new_uuid};
use crate::openai::{ChatMessage, ChatMessageView, ChatToolCall, ChatToolCallView};
use crate::text::{blank, is_blank, same_text};
use crate::tools::{
    arguments_value, format_tool_call_result, openai_call, openai_tool_name_from_api_tool,
    parse_openai_tool_arguments_to_value, result_text, to_openai_tool_call_with_id, tool_name_of,
};

verus! {

/// The names of called tools by the identifiers of the calls.
pub type CallNames = Map<Seq<char>, Seq<char>>;

/// The names with the call of one more message.
pub open spec fn with_call_name(names: CallNames, message: TaskMessageView) -> CallNames {
    match message.message {
        Some(MessageKindView::ToolCall(call)) => match call.tool {
            Some(tool) => match tool_name_of(tool) {
                Some(name) => names.insert(call.tool_call_id, name),
                None => names,
            },
            None => names,
        },
        _ => names,
    }
}

/// The names of the offered tools that messages call. Of two calls with one identifier the
/// later one counts.
pub open spec fn call_names(messages: Seq<TaskMessageView>) -> CallNames
    decreases messages.len(),
{
    if messages.len() == 0 {
        Map::empty()
    } else {
        with_call_name(call_names(messages.drop_last()), messages.last())
    }
}

/// The names that a map holds.
pub open spec fn names_view(names: Map<Seq<char>, String>) -> CallNames {
    names.map_values(|name: String| name@)
}

/// The names of the offered tools that a task calls, by the identifiers of the calls.
pub fn tool_names_by_call_id(task: &Task) -> (r: StringHashMap<String>)
    ensures
        names_view(r@) == call_names(task.deep_view().messages),
{
    let mut names: StringHashMap<String> = StringHashMap::new();
    let ghost messages = task.deep_view().messages;
    assert(names_view(names@) =~= call_names(messages.take(0)));
    for i in 0..task.messages.len()
        invariant
            messages == task.messages.deep_view(),
            names_view(names@) == call_names(messages.take(i as int)),
    {
        let ghost before = names_view(names@);
        let message = &task.messages[i];
        if let Some(MessageKind::ToolCall(call)) = &message.message {
            if let Some(tool) = &call.tool {
                if let Some(name) = openai_tool_name_from_api_tool(tool) {
                    names.insert(call.tool_call_id.clone(), name.to_string());
                    assert(names_view(names@) =~= before.insert(call.tool_call_id@, name@));
                }
            }
        }
        assert(messages.take(i + 1).drop_last() =~= messages.take(i as int));
        assert(messages.take(i + 1).last() == message.deep_view());
    }
    assert(messages.take(messages.len() as int) =~= messages);
    names
}

/// Whether a message calls a tool without an identifier.
pub open spec fn needs_id(message: TaskMessageView) -> bool {
    message.message matches Some(MessageKindView::ToolCall(call)) && call.tool_call_id.len() == 0
}

/// The name under an identifier, if there is one.
pub open spec fn name_of_call(names: CallNames, id: Seq<char>) -> Option<Seq<char>> {
    if names.contains_key(id) {
        Some(names[id])
    } else {
        None
    }
}

/// What the model is shown of a message: queries, text, calls of offered tools and results
/// of calls, as far as they say anything. `fresh` is the identifier of a call that has none.
pub open spec fn shown(
    message: TaskMessageView,
    names: CallNames,
    fresh: Seq<char>,
) -> Option<ChatMessageView> {
    match message.message {
        Some(MessageKindView::UserQuery(query)) => if query.len() > 0 {
            Some(ChatMessageView::user(query))
        } else {
            None
        },
        Some(MessageKindView::AgentOutput(text)) => if !is_blank(text) {
            Some(ChatMessageView::assistant(text))
        } else {
            None
        },
        Some(MessageKindView::ToolCall(call)) => match openai_call(call, fresh) {
            Some(chat_call) => Some(ChatMessageView::assistant_tool_calls(seq![chat_call])),
            None => None,
        },
        Some(MessageKindView::ToolCallResult(result)) => if result.tool_call_id.len() > 0 {
            Some(
                ChatMessageView::tool(
                    result.tool_call_id,
                    result_text(result, name_of_call(names, result.tool_call_id)),
                ),
            )
        } else {
            None
        },
        _ => None,
    }
}

/// What the model is shown of messages, in order; `fresh` has an identifier for each.
pub open spec fn history(
    messages: Seq<TaskMessageView>,
    names: CallNames,
    fresh: Seq<Seq<char>>,
) -> Seq<ChatMessageView>
    decreases messages.len(),
{
    if messages.len() == 0 {
        Seq::empty()
    } else {
        let before = history(messages.drop_last(), names, fresh);
        match shown(messages.last(), names, fresh[messages.len() - 1]) {
            Some(message) => before.push(message),
            None => before,
        }
    }
}

/// What the model is shown of a new input: a query, or else the result of an action.
pub open spec fn input_message(input: AgentInputView) -> Option<ChatMessageView> {
    match input.user_query {
        Some(query) => Some(ChatMessageView::user(query)),
        None => match input.action_result {
            Some(action) => Some(ChatMessageView::tool(action.id, action.result)),
            None => None,
        },
    }
}

/// Messages with new inputs behind them. An input that says what the last message says is
/// left out.
pub open spec fn with_inputs(
    messages: Seq<ChatMessageView>,
    inputs: Seq<AgentInputView>,
) -> Seq<ChatMessageView>
    decreases inputs.len(),
{
    if inputs.len() == 0 {
        messages
    } else {
        let before = with_inputs(messages, inputs.drop_last());
        match input_message(inputs.last()) {
            Some(message) => if before.len() > 0 && before.last() == message {
                before
            } else {
                before.push(message)
            },
            None => before,
        }
    }
}

/// The first task with an identifier.
pub open spec fn task_with_id(tasks: Seq<TaskView>, id: Seq<char>) -> Option<TaskView>
    decreases tasks.len(),
{
    if tasks.len() == 0 {
        None
    } else if tasks.first().id == id {
        Some(tasks.first())
    } else {
        task_with_id(tasks.drop_first(), id)
    }
}

/// The messages of the task that a request goes on with: the first with the identifier, or
/// else the first.
pub open spec fn task_messages(tasks: Seq<TaskView>, id: Seq<char>) -> Seq<TaskMessageView> {
    match task_with_id(tasks, id) {
        Some(task) => task.messages,
        None => if tasks.len() > 0 {
            tasks.first().messages
        } else {
            Seq::empty()
        },
    }
}

/// The messages that a model is shown for a request: the history of the task, then what is
/// new, and a word to go on where there is nothing.
pub open spec fn conversation(
    params: RequestParamsView,
    current_task_id: Seq<char>,
    fresh: Seq<Seq<char>>,
) -> Seq<ChatMessageView> {
    let messages = task_messages(params.tasks, current_task_id);
    let all = with_inputs(history(messages, call_names(messages), fresh), params.input);
    if all.len() == 0 {
        seq![ChatMessageView::user("Continue"@)]
    } else {
        all
    }
}

/// Whether there is an identifier for each message, a random one where it is needed.
pub open spec fn fresh_for(messages: Seq<TaskMessageView>, fresh: Seq<Seq<char>>) -> bool {
    &&& fresh.len() == messages.len()
    &&& forall|i: int|
        0 <= i < messages.len() && needs_id(#[trigger] messages[i]) ==> is_uuid_v4(fresh[i])
}

/// What the model is shown of a new input.
pub fn to_chat_message_for_current_input(input: &AgentInput) -> (r: Option<ChatMessage>)
    ensures
        r.deep_view() == input_message(input.deep_view()),
{
    if let Some(query) = &input.user_query {
        return Some(ChatMessage::user(query.clone()));
    }
    match &input.action_result {
        Some(action) => Some(ChatMessage::tool(action.id.clone(), action.result.clone())),
        None => None,
    }
}

/// What the model is shown of a message.
pub fn history_message(
    message: &TaskMessage,
    names: &StringHashMap<String>,
    fresh: &str,
) -> (r: Option<ChatMessage>)
    ensures
        r.deep_view() == shown(message.deep_view(), names_view(names@), fresh@),
{
    match &message.message {
        Some(MessageKind::UserQuery(query)) => if query.as_str().is_empty() {
            None
        } else {
            Some(ChatMessage::user(query.clone()))
        },
        Some(MessageKind::AgentOutput(text)) => if blank(text.as_str()) {
            None
        } else {
            Some(ChatMessage::assistant(text.clone()))
        },
        Some(MessageKind::ToolCall(call)) => match to_openai_tool_call_with_id(call, fresh) {
            Some(chat_call) => {
                let mut calls: Vec<ChatToolCall> = Vec::new();
                calls.push(chat_call);
                assert(calls.deep_view() =~= seq![chat_call.deep_view()]);
                Some(ChatMessage::assistant_tool_calls(calls))
            },
            None => None,
        },
        Some(MessageKind::ToolCallResult(result)) => {
            let id = result.tool_call_id.as_str();
            if id.is_empty() {
                None
            } else {
                let name = match names.get(id) {
                    Some(name) => Some(name.as_str()),
                    None => None,
                };
                Some(
                    ChatMessage::tool(
                        result.tool_call_id.clone(),
                        format_tool_call_result(result, name),
                    ),
                )
            }
        },
        _ => None,
    }
}

/// The task that a request goes on with.
fn current_task<'a>(tasks: &'a Vec<Task>, current_task_id: &str) -> (r: Option<&'a Task>)
    ensures
        r is None ==> tasks@.len() == 0,
        match r {
            Some(task) => task_messages(tasks.deep_view(), current_task_id@)
                == task.deep_view().messages,
            None => task_messages(tasks.deep_view(), current_task_id@) == Seq::<
                TaskMessageView,
            >::empty(),
        },
{
    let ghost views = tasks.deep_view();
    assert(views.skip(0) =~= views);
    for i in 0..tasks.len()
        invariant
            views == tasks.deep_view(),
            task_with_id(views, current_task_id@) == task_with_id(
                views.skip(i as int),
                current_task_id@,
            ),
    {
        assert(views.skip(i as int).first() == tasks@[i as int].deep_view());
        if same_text(tasks[i].id.as_str(), current_task_id) {
            return Some(&tasks[i]);
        }
        assert(views.skip(i as int).drop_first() =~= views.skip(i + 1));
    }
    assert(task_with_id(views, current_task_id@) is None);
    if tasks.len() > 0 {
        assert(views.first() == tasks@[0].deep_view());
        Some(&tasks[0])
    } else {
        None
    }
}

/// The messages of a request's task, as the model is shown them.
fn task_history(task: &Task, fresh: &Vec<String>) -> (r: Vec<ChatMessage>)
    requires
        fresh@.len() == task.messages@.len(),
    ensures
        r.deep_view() == history(
            task.deep_view().messages,
            call_names(task.deep_view().messages),
            fresh.deep_view(),
        ),
{
    let names = tool_names_by_call_id(task);
    let ghost messages = task.deep_view().messages;
    let ghost ids = fresh.deep_view();
    let ghost called = call_names(messages);
    let mut chat: Vec<ChatMessage> = Vec::new();
    assert(chat.deep_view() =~= history(messages.take(0), called, ids));
    for i in 0..task.messages.len()
        invariant
            messages == task.messages.deep_view(),
            ids == fresh.deep_view(),
            fresh@.len() == task.messages@.len(),
            names_view(names@) == called,
            chat.deep_view() == history(messages.take(i as int), called, ids),
    {
        let ghost before = chat.deep_view();
        assert(messages.take(i + 1).drop_last() =~= messages.take(i as int));
        assert(messages.take(i + 1).last() == task.messages@[i as int].deep_view());
        assert(ids[i as int] == fresh@[i as int]@);
        if let Some(message) = history_message(&task.messages[i], &names, fresh[i].as_str()) {
            chat.push(message);
            assert(chat.deep_view() =~= before.push(message.deep_view()));
        }
    }
    assert(messages.take(messages.len() as int) =~= messages);
    chat
}

/// Adds new inputs behind messages.
fn add_inputs(messages: &mut Vec<ChatMessage>, inputs: &Vec<AgentInput>)
    ensures
        final(messages).deep_view() == with_inputs(old(messages).deep_view(), inputs.deep_view()),
{
    let ghost start = messages.deep_view();
    let ghost views = inputs.deep_view();
    assert(views.take(0) =~= Seq::empty());
    for i in 0..inputs.len()
        invariant
            views == inputs.deep_view(),
            messages.deep_view() == with_inputs(start, views.take(i as int)),
    {
        let ghost before = messages.deep_view();
        assert(views.take(i + 1).drop_last() =~= views.take(i as int));
        assert(views.take(i + 1).last() == inputs@[i as int].deep_view());
        if let Some(message) = to_chat_message_for_current_input(&inputs[i]) {
            let repeats = messages.len() > 0 && messages[messages.len() - 1] == message;
            assert(messages@.len() > 0 ==> before.last() == messages@.last().deep_view());
            if !repeats {
                messages.push(message);
                assert(messages.deep_view() =~= before.push(message.deep_view()));
            }
        }
    }
    assert(views.take(views.len() as int) =~= views);
}

/// The messages that a model is shown for a request, with these identifiers for calls that
/// have none.
pub fn extract_chat_messages_with_ids(
    params: &RequestParams,
    current_task_id: &str,
    fresh: &Vec<String>,
) -> (r: Vec<ChatMessage>)
    requires
        fresh@.len() == task_messages(params.deep_view().tasks, current_task_id@).len(),
    ensures
        r.deep_view() == conversation(params.deep_view(), current_task_id@, fresh.deep_view()),
        r@.len() > 0,
{
    let mut messages = match current_task(&params.tasks, current_task_id) {
        Some(task) => task_history(task, fresh),
        None => Vec::new(),
    };
    assert(messages.deep_view() =~= history(
        task_messages(params.deep_view().tasks, current_task_id@),
        call_names(task_messages(params.deep_view().tasks, current_task_id@)),
        fresh.deep_view(),
    ));
    add_inputs(&mut messages, &params.input);
    if messages.is_empty() {
        messages.push(ChatMessage::user("Continue".to_string()));
        assert(messages.deep_view() =~= seq![ChatMessageView::user("Continue"@)]);
    }
    messages
}

/// Identifiers for the messages of a request's task, random where they are needed.
pub(crate) fn fresh_ids(params: &RequestParams, current_task_id: &str) -> (r: Vec<String>)
    ensures
        fresh_for(task_messages(params.deep_view().tasks, current_task_id@), r.deep_view()),
{
    let mut fresh: Vec<String> = Vec::new();
    if let Some(task) = current_task(&params.tasks, current_task_id) {
        let ghost messages = task.deep_view().messages;
        for i in 0..task.messages.len()
            invariant
                messages == task.messages.deep_view(),
                fresh@.len() == i,
                forall|j: int|
                    0 <= j < i && needs_id(#[trigger] messages[j]) ==> is_uuid_v4(fresh@[j]@),
        {
            assert(messages[i as int] == task.messages@[i as int].deep_view());
            let id = match &task.messages[i].message {
                Some(MessageKind::ToolCall(call)) => if call.tool_call_id.as_str().is_empty() {
                    new_uuid()
                } else {
                    String::new()
                },
                _ => String::new(),
            };
            fresh.push(id);
        }
    }
    fresh
}

/// The messages that a model is shown for a request. A call that has no identifier gets a
/// random one.
pub fn extract_chat_messages(params: &RequestParams, current_task_id: &str) -> (r: Vec<ChatMessage>)
    ensures
        exists|fresh: Seq<Seq<char>>|
            fresh_for(task_messages(params.deep_view().tasks, current_task_id@), fresh)
                && r.deep_view() == #[trigger] conversation(
                params.deep_view(),
                current_task_id@,
                fresh,
            ),
        r@.len() > 0,
{
    let fresh = fresh_ids(params, current_task_id);
    extract_chat_messages_with_ids(params, current_task_id, &fresh)
}

/// What an Anthropic model is shown of a call.
pub open spec fn tool_use(call: ChatToolCallView) -> anthropic::ContentBlockView {
    anthropic::ContentBlockView::ToolUse {
        id: call.id,
        name: call.function.name,
        input: arguments_value(call.function.arguments),
    }
}

/// The blocks of a message of the assistant: its text if it says anything, then its calls.
pub open spec fn assistant_blocks(message: ChatMessageView) -> Seq<anthropic::ContentBlockView> {
    let text = match message.content {
        Some(text) if !is_blank(text) => seq![anthropic::ContentBlockView::Text { text }],
        _ => Seq::empty(),
    };
    let calls = match message.tool_calls {
        Some(calls) => calls.map_values(|call: ChatToolCallView| tool_use(call)),
        None => Seq::empty(),
    };
    text + calls
}

/// What an Anthropic model is shown of a message, if the message says anything. The result
/// of a call is a message of the user.
pub open spec fn anthropic_message(message: ChatMessageView) -> Option<anthropic::MessageView> {
    let content = or_empty(message.content);
    if message.role == "user"@ {
        if is_blank(content) {
            None
        } else {
            Some(
                anthropic::MessageView::user(
                    seq![anthropic::ContentBlockView::Text { text: content }],
                ),
            )
        }
    } else if message.role == "assistant"@ {
        let blocks = assistant_blocks(message);
        if blocks.len() == 0 {
            None
        } else {
            Some(anthropic::MessageView::assistant(blocks))
        }
    } else if message.role == "tool"@ {
        let tool_use_id = or_empty(message.tool_call_id);
        if is_blank(tool_use_id) {
            None
        } else {
            Some(
                anthropic::MessageView::user(
                    seq![anthropic::ContentBlockView::ToolResult { tool_use_id, content }],
                ),
            )
        }
    } else {
        None
    }
}

/// What an Anthropic model is shown of messages, in order.
pub open spec fn anthropic_messages(messages: Seq<ChatMessageView>) -> Seq<anthropic::MessageView>
    decreases messages.len(),
{
    if messages.len() == 0 {
        Seq::empty()
    } else {
        let before = anthropic_messages(messages.drop_last());
        match anthropic_message(messages.last()) {
            Some(message) => before.push(message),
            None => before,
        }
    }
}

fn content_or_empty(text: &Option<String>) -> (r: String)
    ensures
        r@ == or_empty(text.deep_view()),
{
    match text {
        Some(text) => text.clone(),
        None => String::new(),
    }
}

fn blocks_of_assistant(message: &ChatMessage) -> (r: Vec<anthropic::ContentBlock>)
    ensures
        r.deep_view() == assistant_blocks(message.deep_view()),
{
    let mut blocks: Vec<anthropic::ContentBlock> = Vec::new();
    if let Some(text) = &message.content {
        if !blank(text.as_str()) {
            blocks.push(anthropic::ContentBlock::text(text.clone()));
        }
    }
    let ghost texts = blocks.deep_view();
    if let Some(calls) = &message.tool_calls {
        let ghost views = calls.deep_view();
        let ghost uses = views.map_values(|call: ChatToolCallView| tool_use(call));
        assert(blocks.deep_view() =~= texts + uses.take(0));
        for i in 0..calls.len()
            invariant
                views == calls.deep_view(),
                uses == views.map_values(|call: ChatToolCallView| tool_use(call)),
                blocks.deep_view() == texts + uses.take(i as int),
        {
            let ghost before = blocks.deep_view();
            let call = &calls[i];
            let block = anthropic::ContentBlock::tool_use(
                call.id.clone(),
                call.function.name.clone(),
                parse_openai_tool_arguments_to_value(call.function.arguments.as_str()),
            );
            blocks.push(block);
            assert(views[i as int] == call.deep_view());
            assert(blocks.deep_view() =~= before.push(block.deep_view()));
            assert(texts + uses.take(i + 1) =~= (texts + uses.take(i as int)).push(
                uses[i as int],
            ));
        }
        assert(uses.take(uses.len() as int) =~= uses);
    }
    assert(blocks.deep_view() =~= assistant_blocks(message.deep_view()));
    blocks
}

fn one_block(block: anthropic::ContentBlock) -> (r: Vec<anthropic::ContentBlock>)
    ensures
        r.deep_view() == seq![block.deep_view()],
{
    let mut blocks: Vec<anthropic::ContentBlock> = Vec::new();
    blocks.push(block);
    assert(blocks.deep_view() =~= seq![block.deep_view()]);
    blocks
}

/// What an Anthropic model is shown of a message, if the message says anything.
pub fn anthropic_message_from_chat_message(message: &ChatMessage) -> (r: Option<anthropic::Message>)
    ensures
        r.deep_view() == anthropic_message(message.deep_view()),
{
    let role = message.role.as_str();
    if same_text(role, "user") {
        let content = content_or_empty(&message.content);
        if blank(content.as_str()) {
            None
        } else {
            Some(anthropic::Message::user(one_block(anthropic::ContentBlock::text(content))))
        }
    } else if same_text(role, "assistant") {
        let blocks = blocks_of_assistant(message);
        if blocks.is_empty() {
            None
        } else {
            Some(anthropic::Message::assistant(blocks))
        }
    } else if same_text(role, "tool") {
        let tool_use_id = content_or_empty(&message.tool_call_id);
        if blank(tool_use_id.as_str()) {
            return None;
        }
        let content = content_or_empty(&message.content);
        Some(
            anthropic::Message::user(
                one_block(anthropic::ContentBlock::tool_result(tool_use_id, content)),
            ),
        )
    } else {
        None
    }
}

/// What an Anthropic model is shown of messages, in order.
pub fn anthropic_messages_from_chat_messages(messages: &Vec<ChatMessage>) -> (r: Vec<
    anthropic::Message,
>)
    ensures
        r.deep_view() == anthropic_messages(messages.deep_view()),
{
    let ghost views = messages.deep_view();
    let mut shown: Vec<anthropic::Message> = Vec::new();
    assert(shown.deep_view() =~= anthropic_messages(views.take(0)));
    for i in 0..messages.len()
        invariant
            views == messages.deep_view(),
            shown.deep_view() == anthropic_messages(views.take(i as int)),
    {
        let ghost before = shown.deep_view();
        assert(views.take(i + 1).drop_last() =~= views.take(i as int));
        assert(views.take(i + 1).last() == messages@[i as int].deep_view());
        if let Some(message) = anthropic_message_from_chat_message(&messages[i]) {
            shown.push(message);
            assert(shown.deep_view() =~= before.push(message.deep_view()));
        }
    }
    assert(views.take(views.len() as int) =~= views);
    shown
}

/// A model is always shown something.
pub proof fn law_conversation_not_empty(
    params: RequestParamsView,
    current_task_id: Seq<char>,
    fresh: Seq<Seq<char>>,
)
    ensures
        conversation(params, current_task_id, fresh).len() > 0,
{
}

/// No new input repeats the message before it: where two neighbours say the same, both
/// stand in the history.
pub proof fn law_inputs_do_not_repeat(
    messages: Seq<ChatMessageView>,
    inputs: Seq<AgentInputView>,
    i: int,
)
    requires
        0 < i < with_inputs(messages, inputs).len(),
        i >= messages.len(),
    ensures
        with_inputs(messages, inputs)[i] != with_inputs(messages, inputs)[i - 1],
    decreases inputs.len(),
{
    let before = with_inputs(messages, inputs.drop_last());
    if inputs.len() > 0 && i < before.len() {
        law_inputs_do_not_repeat(messages, inputs.drop_last(), i);
    }
}

/// The history stays as it is in front of new inputs.
pub proof fn law_history_kept(messages: Seq<ChatMessageView>, inputs: Seq<AgentInputView>)
    ensures
        messages.is_prefix_of(with_inputs(messages, inputs)),
    decreases inputs.len(),
{
    if inputs.len() > 0 {
        law_history_kept(messages, inputs.drop_last());
    }
}

/// Every message for an Anthropic model is one of the user or of the assistant, and says
/// something.
pub proof fn law_anthropic_messages_say_something(messages: Seq<ChatMessageView>, i: int)
    requires
        0 <= i < anthropic_messages(messages).len(),
    ensures
        ({
            let message = anthropic_messages(messages)[i];
            &&& message.role == "user"@ || message.role == "assistant"@
            &&& message.content.len() > 0
        }),
    decreases messages.len(),
{
    if messages.len() > 0 && i < anthropic_messages(messages.drop_last()).len() {
        law_anthropic_messages_say_something(messages.drop_last(), i);
    }
}

/// What an Anthropic model is shown of two runs of messages is what it is shown of the
/// first, then of the second.
pub proof fn law_anthropic_messages_in_order(a: Seq<ChatMessageView>, b: Seq<ChatMessageView>)
    ensures
        anthropic_messages(a + b) == anthropic_messages(a) + anthropic_messages(b),
    decreases b.len(),
{
    if b.len() == 0 {
        assert(a + b =~= a);
        assert(anthropic_messages(a) + anthropic_messages(b) =~= anthropic_messages(a));
    } else {
        assert((a + b).drop_last() =~= a + b.drop_last());
        law_anthropic_messages_in_order(a, b.drop_last());
        assert(anthropic_messages(a + b) =~= anthropic_messages(a) + anthropic_messages(b));
    }
}

} // verus!
