//! What holds of the conversation that a model is shown.
use vstd::prelude::*;

use crate::anthropic::{ContentBlockView, MessageView};
use crate::api::{
    AgentInputView, MessageKindView, RequestParamsView, TaskMessageView, TaskView, ToolView,
};
use crate::history::{
    anthropic_message, anthropic_messages, assistant_blocks, call_names, conversation, fresh_for,
    history, law_history_kept, needs_id, shown, task_messages, task_with_id, tool_use,
    with_inputs, CallNames,
};
use crate::ids::is_uuid_v4;
use crate::json::{json_parse, json_text, JsonView};
use crate::openai::{ChatMessageView, ChatToolCallView};
use crate::text::{is_blank, trimmed};
use crate::tools::{result_text, tool_arguments};

verus! {

/// Whether a message is this text of the user.
pub open spec fn is_user(message: ChatMessageView, text: Seq<char>) -> bool {
    &&& message.role == "user"@
    &&& message.content == Some(text)
    &&& message.tool_calls is None
    &&& message.tool_call_id is None
    &&& message.name is None
}

/// Whether a message is this text of the assistant.
pub open spec fn is_assistant(message: ChatMessageView, text: Seq<char>) -> bool {
    &&& message.role == "assistant"@
    &&& message.content == Some(text)
    &&& message.tool_calls is None
    &&& message.tool_call_id is None
    &&& message.name is None
}

/// Whether a message is one call of a tool by the assistant.
pub open spec fn is_call(
    message: ChatMessageView,
    id: Seq<char>,
    name: Seq<char>,
    arguments: Seq<char>,
) -> bool {
    &&& message.role == "assistant"@
    &&& message.content is None
    &&& message.tool_call_id is None
    &&& message.name is None
    &&& message.tool_calls matches Some(calls)
    &&& calls.len() == 1
    &&& calls[0].id == id
    &&& calls[0].kind == "function"@
    &&& calls[0].function.name == name
    &&& calls[0].function.arguments == arguments
}

/// Whether a message is the result of a call.
pub open spec fn is_result(message: ChatMessageView, id: Seq<char>, text: Seq<char>) -> bool {
    &&& message.role == "tool"@
    &&& message.content == Some(text)
    &&& message.tool_calls is None
    &&& message.tool_call_id == Some(id)
    &&& message.name is None
}

/// The name under which a model knows a tool, if it knows it.
pub open spec fn known_as(tool: ToolView) -> Option<Seq<char>> {
    match tool {
        ToolView::RunShellCommand(_) => Some("run_shell_command"@),
        ToolView::CallMcpTool(_) => Some("call_mcp_tool"@),
        ToolView::ReadMcpResource(_) => Some("read_mcp_resource"@),
        ToolView::ReadSkill(_) => Some("read_skill"@),
        ToolView::Other => None,
    }
}

/// A query is shown as what the user says, and what the agent said as what the assistant says,
/// each in full and unless there is nothing in it. A call of a known tool is shown under its
/// name, its identifier and its arguments. A result that says which call it is for is shown as
/// the result of that call, in words. Nothing else is shown.
pub proof fn law_shown(message: TaskMessageView, names: CallNames, fresh: Seq<char>)
    ensures
        match message.message {
            Some(MessageKindView::UserQuery(query)) => if query.len() > 0 {
                shown(message, names, fresh) matches Some(said) && is_user(said, query)
            } else {
                shown(message, names, fresh) is None
            },
            Some(MessageKindView::AgentOutput(text)) => if is_blank(text) {
                shown(message, names, fresh) is None
            } else {
                shown(message, names, fresh) matches Some(said) && is_assistant(said, text)
            },
            Some(MessageKindView::ToolCall(call)) => if call.tool is Some && known_as(
                call.tool->0,
            ) is Some {
                shown(message, names, fresh) matches Some(said) && is_call(
                    said,
                    if call.tool_call_id.len() > 0 {
                        call.tool_call_id
                    } else {
                        "local-tool-call-"@ + fresh
                    },
                    known_as(call.tool->0)->0,
                    json_text(tool_arguments(call.tool->0)->0),
                )
            } else {
                shown(message, names, fresh) is None
            },
            Some(MessageKindView::ToolCallResult(result)) => if result.tool_call_id.len() > 0 {
                shown(message, names, fresh) matches Some(said) && is_result(
                    said,
                    result.tool_call_id,
                    result_text(
                        result,
                        if names.contains_key(result.tool_call_id) {
                            Some(names[result.tool_call_id])
                        } else {
                            None
                        },
                    ),
                )
            } else {
                shown(message, names, fresh) is None
            },
            _ => shown(message, names, fresh) is None,
        },
{
}

/// Whether a message calls a known tool under an identifier.
pub open spec fn calls_as(message: TaskMessageView, id: Seq<char>) -> bool {
    &&& message.message matches Some(MessageKindView::ToolCall(call))
    &&& call.tool_call_id == id
    &&& call.tool matches Some(tool)
    &&& known_as(tool) is Some
}

/// There is a name under an identifier exactly where a known tool was called under it.
pub proof fn law_call_names(messages: Seq<TaskMessageView>, id: Seq<char>)
    ensures
        call_names(messages).contains_key(id) <==> exists|i: int|
            0 <= i < messages.len() && calls_as(#[trigger] messages[i], id),
    decreases messages.len(),
{
    if messages.len() > 0 {
        let rest = messages.drop_last();
        let last = messages.len() - 1;
        law_call_names(rest, id);
        if call_names(rest).contains_key(id) {
            let i = choose|i: int| 0 <= i < rest.len() && calls_as(#[trigger] rest[i], id);
            assert(calls_as(messages[i], id));
        } else if call_names(messages).contains_key(id) {
            assert(calls_as(messages[last], id));
        }
        if exists|i: int| 0 <= i < messages.len() && calls_as(#[trigger] messages[i], id) {
            let i = choose|i: int| 0 <= i < messages.len() && calls_as(#[trigger] messages[i], id);
            if i < last {
                assert(calls_as(rest[i], id));
            }
        }
    }
}

/// The name under an identifier is that of the tool that was last called under it.
pub proof fn law_last_call_name(messages: Seq<TaskMessageView>, id: Seq<char>, i: int)
    requires
        0 <= i < messages.len(),
        calls_as(messages[i], id),
        forall|j: int| i < j < messages.len() ==> !calls_as(#[trigger] messages[j], id),
    ensures
        messages[i].message matches Some(MessageKindView::ToolCall(call)) && Some(
            call_names(messages)[id],
        ) == known_as(call.tool->0),
    decreases messages.len(),
{
    let rest = messages.drop_last();
    let last = messages.len() - 1;
    if i < last {
        assert(!calls_as(messages[last], id));
        assert forall|j: int| i < j < rest.len() implies !calls_as(#[trigger] rest[j], id) by {
            assert(rest[j] == messages[j]);
        }
        law_last_call_name(rest, id, i);
        law_call_names(rest, id);
        assert(calls_as(rest[i], id));
    }
}

/// A call without an identifier is given a random one.
pub proof fn law_fresh_ids(messages: Seq<TaskMessageView>, fresh: Seq<Seq<char>>, i: int)
    requires
        fresh_for(messages, fresh),
        0 <= i < messages.len(),
    ensures
        fresh.len() == messages.len(),
        messages[i].message matches Some(MessageKindView::ToolCall(call)) ==> (
        call.tool_call_id.len() == 0 ==> is_uuid_v4(fresh[i])),
{
    assert(needs_id(messages[i]) ==> is_uuid_v4(fresh[i]));
}

/// The history is what is shown of each message, in order.
pub proof fn law_history_step(
    messages: Seq<TaskMessageView>,
    message: TaskMessageView,
    names: CallNames,
    fresh: Seq<Seq<char>>,
)
    ensures
        history(Seq::empty(), names, fresh).len() == 0,
        history(messages.push(message), names, fresh) == (match shown(
            message,
            names,
            fresh[messages.len() as int],
        ) {
            Some(said) => history(messages, names, fresh).push(said),
            None => history(messages, names, fresh),
        }),
{
    assert(messages.push(message).drop_last() =~= messages);
}

/// What is shown of a message stands in the history.
pub proof fn law_history_says(
    messages: Seq<TaskMessageView>,
    names: CallNames,
    fresh: Seq<Seq<char>>,
    i: int,
)
    requires
        0 <= i < messages.len(),
    ensures
        shown(messages[i], names, fresh[i]) matches Some(said) ==> history(
            messages,
            names,
            fresh,
        ).contains(said),
    decreases messages.len(),
{
    let rest = messages.drop_last();
    let before = history(rest, names, fresh);
    assert(messages =~= rest.push(messages.last()));
    law_history_step(rest, messages.last(), names, fresh);
    let after = history(messages, names, fresh);
    if i < rest.len() {
        law_history_says(rest, names, fresh, i);
        if let Some(said) = shown(messages[i], names, fresh[i]) {
            let k = choose|k: int| 0 <= k < before.len() && before[k] == said;
            assert(after[k] == said);
        }
    } else if let Some(said) = shown(messages[i], names, fresh[i]) {
        assert(after.last() == said);
        assert(after[after.len() - 1] == said);
    }
}

/// Whether a message is what a new input says: its query, or else the result of its action.
pub open spec fn says_input(message: ChatMessageView, input: AgentInputView) -> bool {
    match input.user_query {
        Some(query) => is_user(message, query),
        None => input.action_result matches Some(action) && is_result(
            message,
            action.id,
            action.result,
        ),
    }
}

/// A new input that says something is said last: it is added, unless the last message says it
/// already. One that says nothing changes nothing.
pub proof fn law_input_said(
    messages: Seq<ChatMessageView>,
    inputs: Seq<AgentInputView>,
    input: AgentInputView,
)
    ensures
        with_inputs(messages, Seq::empty()) == messages,
        ({
            let before = with_inputs(messages, inputs);
            let after = with_inputs(messages, inputs.push(input));
            if input.user_query is Some || input.action_result is Some {
                &&& after.len() > 0
                &&& says_input(after.last(), input)
                &&& if before.len() > 0 && says_input(before.last(), input) {
                    after == before
                } else {
                    after == before.push(after.last())
                }
            } else {
                after == before
            }
        }),
{
    assert(inputs.push(input).drop_last() =~= inputs);
    let before = with_inputs(messages, inputs);
    if before.len() > 0 && says_input(before.last(), input) {
        let after = with_inputs(messages, inputs.push(input));
        assert(before.last() == after.last());
    }
}

/// Every new input that says something is said in the conversation.
pub proof fn law_inputs_said(
    messages: Seq<ChatMessageView>,
    inputs: Seq<AgentInputView>,
    j: int,
)
    requires
        0 <= j < inputs.len(),
        inputs[j].user_query is Some || inputs[j].action_result is Some,
    ensures
        exists|k: int|
            0 <= k < with_inputs(messages, inputs).len() && says_input(
                #[trigger] with_inputs(messages, inputs)[k],
                inputs[j],
            ),
    decreases inputs.len(),
{
    let rest = inputs.drop_last();
    assert(inputs =~= rest.push(inputs.last()));
    law_input_said(messages, rest, inputs.last());
    let before = with_inputs(messages, rest);
    let after = with_inputs(messages, inputs);
    if j < rest.len() {
        law_inputs_said(messages, rest, j);
        let k = choose|k: int|
            0 <= k < before.len() && says_input(#[trigger] before[k], inputs[j]);
        assert(after[k] == before[k]);
    } else {
        assert(says_input(after[after.len() - 1], inputs[j]));
    }
}

/// A request goes on with the first task that has the identifier, or with the first task where
/// none has it.
pub proof fn law_current_task(tasks: Seq<TaskView>, id: Seq<char>)
    ensures
        forall|k: int|
            0 <= k < tasks.len() && (#[trigger] tasks[k]).id == id && (forall|j: int|
                0 <= j < k ==> (#[trigger] tasks[j]).id != id) ==> task_messages(tasks, id)
                == tasks[k].messages,
        (forall|k: int| 0 <= k < tasks.len() ==> (#[trigger] tasks[k]).id != id) && tasks.len() > 0
            ==> task_messages(tasks, id) == tasks[0].messages,
        tasks.len() == 0 ==> task_messages(tasks, id).len() == 0,
{
    assert forall|k: int|
        0 <= k < tasks.len() && (#[trigger] tasks[k]).id == id && (forall|j: int|
            0 <= j < k ==> (#[trigger] tasks[j]).id != id) implies task_messages(tasks, id)
        == tasks[k].messages by {
        lemma_first_task(tasks, id, k);
    }
    if (forall|k: int| 0 <= k < tasks.len() ==> (#[trigger] tasks[k]).id != id) {
        lemma_no_task(tasks, id);
    }
}

proof fn lemma_first_task(tasks: Seq<TaskView>, id: Seq<char>, k: int)
    requires
        0 <= k < tasks.len(),
        tasks[k].id == id,
        forall|j: int| 0 <= j < k ==> (#[trigger] tasks[j]).id != id,
    ensures
        task_with_id(tasks, id) == Some(tasks[k]),
    decreases k,
{
    if k > 0 {
        assert(tasks[0].id != id);
        let rest = tasks.drop_first();
        assert forall|j: int| 0 <= j < k - 1 implies (#[trigger] rest[j]).id != id by {
            assert(rest[j] == tasks[j + 1]);
        }
        lemma_first_task(rest, id, k - 1);
    }
}

proof fn lemma_no_task(tasks: Seq<TaskView>, id: Seq<char>)
    requires
        forall|k: int| 0 <= k < tasks.len() ==> (#[trigger] tasks[k]).id != id,
    ensures
        task_with_id(tasks, id) is None,
    decreases tasks.len(),
{
    if tasks.len() > 0 {
        assert(tasks[0].id != id);
        let rest = tasks.drop_first();
        assert forall|k: int| 0 <= k < rest.len() implies (#[trigger] rest[k]).id != id by {
            assert(rest[k] == tasks[k + 1]);
        }
        lemma_no_task(rest, id);
    }
}

/// The conversation begins with all that the history of its task shows.
pub proof fn law_conversation_history(
    params: RequestParamsView,
    id: Seq<char>,
    fresh: Seq<Seq<char>>,
    i: int,
)
    requires
        0 <= i < task_messages(params.tasks, id).len(),
    ensures
        ({
            let messages = task_messages(params.tasks, id);
            let names = call_names(messages);
            &&& history(messages, names, fresh).len() > 0 ==> history(
                messages,
                names,
                fresh,
            ).is_prefix_of(conversation(params, id, fresh))
            &&& shown(messages[i], names, fresh[i]) matches Some(said) ==> conversation(
                params,
                id,
                fresh,
            ).contains(said)
        }),
{
    let messages = task_messages(params.tasks, id);
    let names = call_names(messages);
    let past = history(messages, names, fresh);
    let all = with_inputs(past, params.input);
    law_history_kept(past, params.input);
    law_history_says(messages, names, fresh, i);
    if let Some(said) = shown(messages[i], names, fresh[i]) {
        let k = choose|k: int| 0 <= k < past.len() && past[k] == said;
        assert(all[k] == said);
    }
}

/// The conversation says every new input that says something.
pub proof fn law_conversation_inputs(
    params: RequestParamsView,
    id: Seq<char>,
    fresh: Seq<Seq<char>>,
    j: int,
)
    requires
        0 <= j < params.input.len(),
        params.input[j].user_query is Some || params.input[j].action_result is Some,
    ensures
        exists|k: int|
            0 <= k < conversation(params, id, fresh).len() && says_input(
                #[trigger] conversation(params, id, fresh)[k],
                params.input[j],
            ),
{
    let messages = task_messages(params.tasks, id);
    let past = history(messages, call_names(messages), fresh);
    let all = with_inputs(past, params.input);
    law_inputs_said(past, params.input, j);
    let k = choose|k: int| 0 <= k < all.len() && says_input(#[trigger] all[k], params.input[j]);
    assert(says_input(conversation(params, id, fresh)[k], params.input[j]));
}

/// A conversation without history and without new inputs is a word of the user to go on; any
/// other is the history with the new inputs behind it, and nothing else.
pub proof fn law_conversation_else(
    params: RequestParamsView,
    id: Seq<char>,
    fresh: Seq<Seq<char>>,
)
    ensures
        ({
            let messages = task_messages(params.tasks, id);
            let all = with_inputs(history(messages, call_names(messages), fresh), params.input);
            let told = conversation(params, id, fresh);
            if all.len() == 0 {
                told.len() == 1 && is_user(told[0], "Continue"@)
            } else {
                told == all
            }
        }),
{
}

/// New inputs that say nothing change nothing.
pub proof fn law_silent_inputs(messages: Seq<ChatMessageView>, inputs: Seq<AgentInputView>)
    requires
        forall|k: int|
            0 <= k < inputs.len() ==> (#[trigger] inputs[k]).user_query is None
                && inputs[k].action_result is None,
    ensures
        with_inputs(messages, inputs) == messages,
    decreases inputs.len(),
{
    if inputs.len() > 0 {
        let rest = inputs.drop_last();
        assert(inputs[inputs.len() - 1].user_query is None);
        assert forall|k: int| 0 <= k < rest.len() implies (#[trigger] rest[k]).user_query is None
            && rest[k].action_result is None by {
            assert(rest[k] == inputs[k]);
        }
        law_silent_inputs(messages, rest);
    }
}

/// Whether a value is that of a call's arguments: the value of their text, and an empty object
/// where the text is blank or no JSON.
pub open spec fn is_input(value: JsonView, arguments: Seq<char>) -> bool {
    if is_blank(arguments) {
        value == JsonView::Object(Map::empty())
    } else {
        match json_parse(trimmed(arguments)) {
            Ok(parsed) => value == parsed,
            Err(_) => value == JsonView::Object(Map::empty()),
        }
    }
}

/// Whether a block shows a call.
pub open spec fn is_tool_use(block: ContentBlockView, call: ChatToolCallView) -> bool {
    block matches ContentBlockView::ToolUse { id, name, input } && id == call.id && name
        == call.function.name && is_input(input, call.function.arguments)
}

proof fn lemma_roles()
    ensures
        "user"@ != "assistant"@,
        "user"@ != "tool"@,
        "assistant"@ != "tool"@,
{
    reveal_strlit("user");
    reveal_strlit("assistant");
    reveal_strlit("tool");
    assert("user"@[0] != "tool"@[0]);
    assert("user"@.len() != "assistant"@.len() && "tool"@.len() != "assistant"@.len());
}

/// An Anthropic model is shown what the user says as one text of the user, and the result of a
/// call as one result of the user, with its identifier and all that it says. It is shown what
/// the assistant says as one text in front of its calls, each with its identifier, its name and
/// the value of its arguments. A message that says nothing is not shown.
pub proof fn law_for_anthropic(message: ChatMessageView)
    ensures
        ({
            let content = match message.content {
                Some(content) => content,
                None => Seq::empty(),
            };
            let texts: nat = if is_blank(content) {
                0
            } else {
                1
            };
            let calls = match message.tool_calls {
                Some(calls) => calls,
                None => Seq::empty(),
            };
            let made = anthropic_message(message);
            if message.role == "user"@ {
                if is_blank(content) {
                    made is None
                } else {
                    made == Some(
                        MessageView {
                            role: "user"@,
                            content: seq![ContentBlockView::Text { text: content }],
                        },
                    )
                }
            } else if message.role == "assistant"@ {
                if texts + calls.len() == 0 {
                    made is None
                } else {
                    &&& made is Some
                    &&& made->0.role == "assistant"@
                    &&& made->0.content.len() == texts + calls.len()
                    &&& texts == 1 ==> made->0.content[0] == (ContentBlockView::Text {
                        text: content,
                    })
                    &&& forall|i: int|
                        0 <= i < calls.len() ==> is_tool_use(
                            made->0.content[texts + i],
                            #[trigger] calls[i],
                        )
                }
            } else if message.role == "tool"@ {
                match message.tool_call_id {
                    Some(id) => if is_blank(id) {
                        made is None
                    } else {
                        made == Some(
                            MessageView {
                                role: "user"@,
                                content: seq![
                                    ContentBlockView::ToolResult { tool_use_id: id, content },
                                ],
                            },
                        )
                    },
                    None => made is None,
                }
            } else {
                made is None
            }
        }),
{
    lemma_roles();
    assert(is_blank(Seq::<char>::empty()));
    if message.role == "assistant"@ {
        let calls = match message.tool_calls {
            Some(calls) => calls,
            None => Seq::empty(),
        };
        let blocks = assistant_blocks(message);
        let texts: nat = if message.content is Some && !is_blank(message.content->0) {
            1
        } else {
            0
        };
        assert(blocks.len() == texts + calls.len());
        assert forall|i: int| 0 <= i < calls.len() implies is_tool_use(
            blocks[texts + i],
            #[trigger] calls[i],
        ) by {
            assert(blocks[texts + i] == tool_use(calls[i]));
        }
    }
}

/// What the user says, what the assistant says and what a call gave is shown to an Anthropic
/// model in full.
pub proof fn law_text_for_anthropic(message: ChatMessageView, id: Seq<char>, text: Seq<char>)
    ensures
        is_user(message, text) && !is_blank(text) ==> anthropic_message(message) == Some(
            (MessageView { role: "user"@, content: seq![ContentBlockView::Text { text }] }),
        ),
        is_assistant(message, text) && !is_blank(text) ==> anthropic_message(message) == Some(
            (MessageView { role: "assistant"@, content: seq![ContentBlockView::Text { text }] }),
        ),
        is_result(message, id, text) && !is_blank(id) ==> anthropic_message(message) == Some(
            (MessageView {
                role: "user"@,
                content: seq![ContentBlockView::ToolResult { tool_use_id: id, content: text }],
            }),
        ),
{
    lemma_roles();
    law_for_anthropic(message);
    if is_assistant(message, text) && !is_blank(text) {
        assert(anthropic_message(message)->0.content =~= seq![ContentBlockView::Text { text }]);
    }
}

/// An Anthropic model is shown what it is shown of each message, in order.
pub proof fn law_anthropic_step(messages: Seq<ChatMessageView>, message: ChatMessageView)
    ensures
        anthropic_messages(Seq::empty()).len() == 0,
        anthropic_messages(messages.push(message)) == (match anthropic_message(message) {
            Some(made) => anthropic_messages(messages).push(made),
            None => anthropic_messages(messages),
        }),
{
    assert(messages.push(message).drop_last() =~= messages);
}

} // verus!
