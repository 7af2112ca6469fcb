//! What holds of whole responses.
use vstd::prelude::*;

use crate::anthropic::{ContentBlockView, StreamEventView};
use crate::api::{
    ClientActionView, FinishReasonView, LocalAgentConfigView, MessageKindView, RequestParamsView,
    ResponseEventView, StreamFinishedView, TaskMessageView, ToolCallView, ToolView,
};
use crate::calls::{
    answers, args_tool, call_at, call_message, law_tool_names, merged, or_empty, to_decode,
    tool_named, tool_of, CallIdsView, DecodeRequestView, Decoded, PendingCalls, PendingToolCallView,
    ToolArgsView,
};
use crate::error::AIApiErrorView;
use crate::history::{
    anthropic_messages, conversation, law_anthropic_messages_say_something,
    law_conversation_not_empty, shown, tool_use, with_call_name, CallNames,
};
use crate::history_laws::{is_assistant, is_call};
use crate::ids::is_uuid_v4;
use crate::json::{exact_within, json_get, json_get_str, json_text, JsonView};
use crate::openai::{ChatMessageView, ChunkChoiceView, ToolCallDeltaView, ToolCallFunctionDeltaView};
use crate::proto::{
    fields_to_json, fields_to_proto, law_json_through_proto, law_proto_through_json,
    lemma_object_to_proto, lemma_struct_to_json, with_doubles, ProtoView,
};
use crate::provider::{provider_kind, LocalProviderKind};
use crate::response::{
    ascends, call_messages, call_places, done_event, final_events, in_order, init_event,
    messages_event, output_message, provider_request, request_task, text_messages, OutputIdsView,
    ProviderRequestView, ANTHROPIC_MAX_TOKENS,
};
use crate::stream::{
    after_event, after_input, filtered, with_choice, with_choices, AnswerView, Step,
    StreamControlView, StreamInputView,
};
use crate::text::{is_blank, is_white_space, trimmed};
use crate::tools::{
    arguments_tell, arguments_value, call_id, filled_or_null, function_call_view, local_tool,
    local_tool_name, openai_call, reads_back, tool_arguments, tool_definitions, tool_name_of,
    LocalTool,
};

verus! {

/// An answer after everything that came from the provider, up to what ends it.
pub open spec fn read(answer: AnswerView, inputs: Seq<StreamInputView>) -> Step
    decreases inputs.len(),
{
    if inputs.len() == 0 {
        Step { answer, control: StreamControlView::Continue }
    } else {
        let step = after_input(answer, inputs.first());
        match step.control {
            StreamControlView::Continue => read(step.answer, inputs.drop_first()),
            _ => step,
        }
    }
}

/// What a response yields: its first event, and then the events that end it, or one error.
/// `decoded` is what the arguments of the calls decode to.
pub open spec fn response(
    inputs: Seq<StreamInputView>,
    decoded: Seq<Option<Decoded>>,
    task_id: Seq<char>,
    request_id: Seq<char>,
    ids: OutputIdsView,
) -> Seq<Result<ResponseEventView, AIApiErrorView>> {
    let step = read(AnswerView::untold(), inputs);
    let rest = match step.control {
        StreamControlView::Fail(error) => seq![Err(error)],
        _ => match final_events(step.answer, decoded, task_id, request_id, ids) {
            Ok(events) => events.map_values(
                |event: ResponseEventView| Ok::<ResponseEventView, AIApiErrorView>(event),
            ),
            Err(error) => seq![Err(error)],
        },
    };
    seq![Ok(init_event(request_id))] + rest
}

/// Whether messages carry the identifiers of their task and of the request.
pub open spec fn carry(
    messages: Seq<TaskMessageView>,
    task_id: Seq<char>,
    request_id: Seq<char>,
) -> bool {
    forall|i: int|
        0 <= i < messages.len() ==> (#[trigger] messages[i]).task_id == task_id
            && messages[i].request_id == request_id
}

/// The messages that calls become carry the identifiers.
proof fn lemma_call_messages_carry(
    calls: Seq<PendingToolCallView>,
    decoded: Seq<Option<Decoded>>,
    task_id: Seq<char>,
    request_id: Seq<char>,
    ids: Seq<CallIdsView>,
)
    ensures
        call_messages(calls, decoded, task_id, request_id, ids) matches Ok(messages) ==> carry(
            messages,
            task_id,
            request_id,
        ),
    decreases calls.len(),
{
    if calls.len() > 0 {
        lemma_call_messages_carry(calls.drop_last(), decoded, task_id, request_id, ids);
    }
}

/// What a response yields when it begins: an event that names its request.
pub open spec fn first_event(request_id: Seq<char>) -> Result<ResponseEventView, AIApiErrorView> {
    Ok(
        ResponseEventView::Init {
            request_id,
            conversation_id: Seq::empty(),
            run_id: Seq::empty(),
        },
    )
}

/// What a response yields to add messages to its task.
pub open spec fn added(task_id: Seq<char>, messages: Seq<TaskMessageView>) -> Result<
    ResponseEventView,
    AIApiErrorView,
> {
    Ok(
        ResponseEventView::ClientActions(
            seq![ClientActionView::AddMessagesToTask { task_id, messages }],
        ),
    )
}

/// What a response yields when it is complete.
pub open spec fn last_event() -> Result<ResponseEventView, AIApiErrorView> {
    Ok(
        ResponseEventView::Finished(
            StreamFinishedView {
                reason: FinishReasonView::Done,
                should_refresh_model_config: false,
            },
        ),
    )
}

/// The message in which the agent says a text.
pub open spec fn agent_says(
    task_id: Seq<char>,
    request_id: Seq<char>,
    text: Seq<char>,
    id: Seq<char>,
) -> TaskMessageView {
    TaskMessageView {
        id: "local-agent-output-"@ + id,
        task_id,
        request_id,
        server_message_data: Seq::empty(),
        message: Some(MessageKindView::AgentOutput(text)),
    }
}

/// The events and messages that the library makes tell what they are made of: the first event
/// its request, the event of messages its task and all of the messages, the last event that all
/// is said, and the message of the agent its text.
pub proof fn law_events(
    task_id: Seq<char>,
    request_id: Seq<char>,
    messages: Seq<TaskMessageView>,
    text: Seq<char>,
    id: Seq<char>,
)
    ensures
        first_event(request_id) == Ok::<ResponseEventView, AIApiErrorView>(init_event(request_id)),
        added(task_id, messages) == Ok::<ResponseEventView, AIApiErrorView>(
            messages_event(task_id, messages),
        ),
        last_event() == Ok::<ResponseEventView, AIApiErrorView>(done_event()),
        agent_says(task_id, request_id, text, id) == output_message(task_id, request_id, text, id),
{
}

/// A response begins with its first event and ends either with one error or by saying that
/// it is complete. Only in the second case does it add messages, in one event, and these
/// carry the identifiers of the task and of the request. Nothing comes behind an error.
pub proof fn law_response(
    inputs: Seq<StreamInputView>,
    decoded: Seq<Option<Decoded>>,
    task_id: Seq<char>,
    request_id: Seq<char>,
    ids: OutputIdsView,
)
    ensures
        ({
            let yielded = response(inputs, decoded, task_id, request_id, ids);
            &&& yielded.first() == first_event(request_id)
            &&& {
                ||| yielded.len() == 2 && yielded[1] is Err
                ||| yielded.len() == 2 && yielded[1] == last_event()
                ||| yielded.len() == 3 && yielded[2] == last_event() && exists|
                    messages: Seq<TaskMessageView>,
                |
                    #![trigger added(task_id, messages)]
                    messages.len() > 0 && carry(messages, task_id, request_id) && yielded[1]
                        == added(task_id, messages)
            }
        }),
{
    let step = read(AnswerView::untold(), inputs);
    let calls = in_order(step.answer.calls);
    lemma_call_messages_carry(calls, decoded, task_id, request_id, ids.calls);
    if let Ok(told) = call_messages(calls, decoded, task_id, request_id, ids.calls) {
        let messages = text_messages(step.answer.text, task_id, request_id, ids.text) + told;
        assert(carry(messages, task_id, request_id));
        if messages.len() > 0 && !(step.control is Fail) {
            let yielded = response(inputs, decoded, task_id, request_id, ids);
            assert(yielded[1] == added(task_id, messages));
        }
    }
}

/// An answer ends in what it says and in what its calls become, the text first, if there is
/// any of them, and in saying that it is complete. Where a call is an error, it ends in that
/// error alone.
pub proof fn law_final_events(
    answer: AnswerView,
    decoded: Seq<Option<Decoded>>,
    task_id: Seq<char>,
    request_id: Seq<char>,
    ids: OutputIdsView,
)
    ensures
        ({
            let made = final_events(answer, decoded, task_id, request_id, ids);
            match call_messages(in_order(answer.calls), decoded, task_id, request_id, ids.calls) {
                Err(error) => made == Err::<Seq<ResponseEventView>, AIApiErrorView>(error),
                Ok(told) => {
                    let text = agent_says(task_id, request_id, answer.text, ids.text);
                    let messages = if is_blank(answer.text) {
                        told
                    } else {
                        seq![text] + told
                    };
                    made matches Ok(events) && if messages.len() > 0 {
                        &&& events.len() == 2
                        &&& added(task_id, messages) == Ok::<ResponseEventView, AIApiErrorView>(
                            events[0],
                        )
                        &&& last_event() == Ok::<ResponseEventView, AIApiErrorView>(events[1])
                    } else {
                        &&& events.len() == 1
                        &&& last_event() == Ok::<ResponseEventView, AIApiErrorView>(events[0])
                    }
                },
            }
        }),
{
    if let Ok(told) = call_messages(
        in_order(answer.calls),
        decoded,
        task_id,
        request_id,
        ids.calls,
    ) {
        if is_blank(answer.text) {
            assert(Seq::<TaskMessageView>::empty() + told =~= told);
        }
    }
}

/// The identifiers that the end of a response is given are all random.
pub proof fn law_random_ids(ids: OutputIdsView, calls: Seq<PendingToolCallView>, i: int)
    requires
        ids.random_for(calls),
        0 <= i < calls.len(),
    ensures
        is_uuid_v4(ids.text),
        ids.calls.len() == calls.len(),
        is_uuid_v4(ids.calls[i].call),
        is_uuid_v4(ids.calls[i].message),
{
    assert(ids.calls[i].random());
}

/// The messages of calls are what each call becomes, in order, up to the first error.
pub proof fn law_call_messages_step(
    calls: Seq<PendingToolCallView>,
    call: PendingToolCallView,
    decoded: Seq<Option<Decoded>>,
    task_id: Seq<char>,
    request_id: Seq<char>,
    ids: Seq<CallIdsView>,
)
    ensures
        ({
            let k = calls.len() as int;
            let before = call_messages(calls, decoded, task_id, request_id, ids);
            let after = call_messages(calls.push(call), decoded, task_id, request_id, ids);
            match before {
                Err(_) => after == before,
                Ok(told) => match call_message(call, decoded[k], task_id, request_id, ids[k]) {
                    Ok(Some(message)) => after == Ok::<Seq<TaskMessageView>, AIApiErrorView>(
                        told.push(message),
                    ),
                    Ok(None) => after == before,
                    Err(error) => after == Err::<Seq<TaskMessageView>, AIApiErrorView>(error),
                },
            }
        }),
        call_messages(Seq::empty(), decoded, task_id, request_id, ids) == Ok::<
            Seq<TaskMessageView>,
            AIApiErrorView,
        >(Seq::empty()),
{
    assert(calls.push(call).drop_last() =~= calls);
}

/// Every request asks for a stream and offers all the tools. An endpoint that speaks the
/// messages protocol gets the same conversation as any other, in its own form, and is told
/// how long its answer may be.
pub proof fn law_request(
    config: LocalAgentConfigView,
    params: RequestParamsView,
    fresh: Seq<Seq<char>>,
)
    ensures
        ({
            let messages = conversation(params, request_task(params.tasks), fresh);
            match provider_request(config, params, fresh) {
                ProviderRequestView::OpenAI { head: _, body } => {
                    &&& provider_kind(config.endpoint_url) == LocalProviderKind::OpenAICompatible
                    &&& body.stream
                    &&& body.tools == tool_definitions()
                    &&& body.messages == messages
                    &&& body.messages.len() > 0
                },
                ProviderRequestView::Anthropic { head: _, body } => {
                    &&& provider_kind(config.endpoint_url) == LocalProviderKind::AnthropicMessages
                    &&& body.stream
                    &&& body.max_tokens == ANTHROPIC_MAX_TOKENS
                    &&& body.tools.len() == tool_definitions().len()
                    &&& body.messages == anthropic_messages(messages)
                    &&& forall|i: int|
                        0 <= i < body.messages.len() ==> (#[trigger] body.messages[i]).content.len()
                            > 0
                },
            }
        }),
{
    let messages = conversation(params, request_task(params.tasks), fresh);
    law_conversation_not_empty(params, request_task(params.tasks), fresh);
    assert forall|i: int| 0 <= i < anthropic_messages(messages).len() implies (
    #[trigger] anthropic_messages(messages)[i]).content.len() > 0 by {
        law_anthropic_messages_say_something(messages, i);
    }
}

/// What ends an answer ends it whatever comes behind; until then an answer is read the
/// same in one go and in two.
pub proof fn law_reading_in_parts(
    answer: AnswerView,
    a: Seq<StreamInputView>,
    b: Seq<StreamInputView>,
)
    ensures
        read(answer, a + b) == (match read(answer, a).control {
            StreamControlView::Continue => read(read(answer, a).answer, b),
            _ => read(answer, a),
        }),
    decreases a.len(),
{
    if a.len() == 0 {
        assert(a + b =~= b);
    } else {
        assert((a + b).first() == a.first());
        assert((a + b).drop_first() =~= a.drop_first() + b);
        law_reading_in_parts(after_input(answer, a.first()).answer, a.drop_first(), b);
    }
}

/// A chunk fails exactly when a content filter ended one of its choices, and with the
/// error that says so.
pub proof fn law_content_filter(answer: AnswerView, choices: Seq<ChunkChoiceView>)
    ensures
        with_choices(answer, choices).control == (if exists|i: int|
            0 <= i < choices.len() && (#[trigger] choices[i]).finish_reason == Some(
                "content_filter"@,
            ) {
            StreamControlView::Fail(filtered())
        } else {
            StreamControlView::Continue
        }),
    decreases choices.len(),
{
    if choices.len() > 0 {
        let next = with_choice(answer, choices.first());
        let rest = choices.drop_first();
        law_content_filter(next, rest);
        if choices.first().finish_reason == Some("content_filter"@) {
            assert(choices[0].finish_reason == Some("content_filter"@));
        } else {
            if exists|i: int|
                0 <= i < choices.len() && (#[trigger] choices[i]).finish_reason == Some(
                    "content_filter"@,
                ) {
                let i = choose|i: int|
                    0 <= i < choices.len() && (#[trigger] choices[i]).finish_reason == Some(
                        "content_filter"@,
                    );
                assert(rest[i - 1] == choices[i]);
            }
            if exists|i: int|
                0 <= i < rest.len() && (#[trigger] rest[i]).finish_reason == Some(
                    "content_filter"@,
                ) {
                let i = choose|i: int|
                    0 <= i < rest.len() && (#[trigger] rest[i]).finish_reason == Some(
                        "content_filter"@,
                    );
                assert(choices[i + 1] == rest[i]);
            }
        }
    }
}

/// The text of choices, one behind the other.
pub open spec fn said(choices: Seq<ChunkChoiceView>) -> Seq<char>
    decreases choices.len(),
{
    if choices.len() == 0 {
        Seq::empty()
    } else {
        (match choices.first().delta.content {
            Some(content) => content,
            None => Seq::empty(),
        }) + said(choices.drop_first())
    }
}

/// A chunk that no content filter ended adds all of its text to the answer, in order.
pub proof fn law_text_collected(answer: AnswerView, choices: Seq<ChunkChoiceView>)
    requires
        forall|i: int|
            0 <= i < choices.len() ==> (#[trigger] choices[i]).finish_reason != Some(
                "content_filter"@,
            ),
    ensures
        with_choices(answer, choices).answer.text == answer.text + said(choices),
    decreases choices.len(),
{
    if choices.len() == 0 {
        assert(answer.text + said(choices) =~= answer.text);
    } else {
        let next = with_choice(answer, choices.first());
        assert(choices[0].finish_reason != Some("content_filter"@));
        assert forall|i: int| 0 <= i < choices.drop_first().len() implies (
        #[trigger] choices.drop_first()[i]).finish_reason != Some("content_filter"@) by {
            assert(choices.drop_first()[i] == choices[i + 1]);
        }
        law_text_collected(next, choices.drop_first());
        assert(next.text + said(choices.drop_first()) =~= answer.text + said(choices));
    }
}

/// An answer that says something is added to the task, as its text is, in front of the
/// calls, unless the provider failed or the arguments of a call are not right.
pub proof fn law_answer_added(
    inputs: Seq<StreamInputView>,
    decoded: Seq<Option<Decoded>>,
    task_id: Seq<char>,
    request_id: Seq<char>,
    ids: OutputIdsView,
)
    requires
        ({
            let step = read(AnswerView::untold(), inputs);
            let calls = in_order(step.answer.calls);
            &&& !(step.control is Fail)
            &&& !is_blank(step.answer.text)
            &&& call_messages(calls, decoded, task_id, request_id, ids.calls) is Ok
        }),
    ensures
        ({
            let step = read(AnswerView::untold(), inputs);
            let calls = in_order(step.answer.calls);
            let text = agent_says(task_id, request_id, step.answer.text, ids.text);
            let told = call_messages(calls, decoded, task_id, request_id, ids.calls)->Ok_0;
            response(inputs, decoded, task_id, request_id, ids) == seq![
                first_event(request_id),
                added(task_id, seq![text] + told),
                last_event(),
            ]
        }),
{
    let step = read(AnswerView::untold(), inputs);
    let calls = in_order(step.answer.calls);
    let text = agent_says(task_id, request_id, step.answer.text, ids.text);
    let told = call_messages(calls, decoded, task_id, request_id, ids.calls)->Ok_0;
    assert(response(inputs, decoded, task_id, request_id, ids) =~= seq![
        first_event(request_id),
        added(task_id, seq![text] + told),
        last_event(),
    ]);
}

/// Text that comes in two parts is text that comes in one, and so are the arguments of a
/// call.
pub proof fn law_parts_join(answer: AnswerView, index: usize, a: Seq<char>, b: Seq<char>)
    ensures
        after_event(
            after_event(answer, StreamEventView::TextDelta(a)).answer,
            StreamEventView::TextDelta(b),
        ) == after_event(answer, StreamEventView::TextDelta(a + b)),
        after_event(
            after_event(
                answer,
                StreamEventView::ToolUseInputDelta { index, partial_json: a },
            ).answer,
            StreamEventView::ToolUseInputDelta { index, partial_json: b },
        ) == after_event(
            answer,
            StreamEventView::ToolUseInputDelta { index, partial_json: a + b },
        ),
{
    assert((answer.text + a) + b =~= answer.text + (a + b));
    let arguments = call_at(answer.calls, index).arguments;
    assert((arguments + a) + b =~= arguments + (a + b));
    let two = after_event(
        after_event(answer, StreamEventView::ToolUseInputDelta { index, partial_json: a }).answer,
        StreamEventView::ToolUseInputDelta { index, partial_json: b },
    );
    let one = after_event(
        answer,
        StreamEventView::ToolUseInputDelta { index, partial_json: a + b },
    );
    assert(two.answer.calls =~= one.answer.calls);
}

/// A part of a call leaves the other calls as they are.
pub proof fn law_other_calls_kept(
    calls: PendingCalls,
    delta: ToolCallDeltaView,
    index: usize,
    other: usize,
)
    requires
        delta.index == Some(index),
        other != index,
    ensures
        merged(calls, delta).contains_key(other) == calls.contains_key(other),
        calls.contains_key(other) ==> merged(calls, delta)[other] == calls[other],
{
}

/// Parts of two calls can come in either order.
pub proof fn law_calls_interleave(
    calls: PendingCalls,
    a: ToolCallDeltaView,
    b: ToolCallDeltaView,
)
    requires
        a.index is Some,
        b.index is Some,
        a.index != b.index,
    ensures
        merged(merged(calls, a), b) == merged(merged(calls, b), a),
{
    assert(merged(merged(calls, a), b) =~= merged(merged(calls, b), a));
}

/// A part of the arguments of a call at a place.
pub open spec fn arguments_part(index: usize, arguments: Seq<char>) -> ToolCallDeltaView {
    ToolCallDeltaView {
        index: Some(index),
        id: None,
        function: Some(ToolCallFunctionDeltaView { name: None, arguments: Some(arguments) }),
    }
}

/// Arguments that come in two parts of chunks are arguments that come in one.
pub proof fn law_arguments_join(calls: PendingCalls, index: usize, a: Seq<char>, b: Seq<char>)
    ensures
        merged(merged(calls, arguments_part(index, a)), arguments_part(index, b)) == merged(
            calls,
            arguments_part(index, a + b),
        ),
{
    let arguments = call_at(calls, index).arguments;
    assert((arguments + a) + b =~= arguments + (a + b));
    assert(merged(merged(calls, arguments_part(index, a)), arguments_part(index, b)) =~= merged(
        calls,
        arguments_part(index, a + b),
    ));
}

/// A set of places that is not empty has a last one.
proof fn lemma_last_place(set: Set<usize>) -> (last: usize)
    requires
        set.finite(),
        set.len() > 0,
    ensures
        set.contains(last),
        forall|place: usize| #[trigger] set.contains(place) ==> place <= last,
    decreases set.len(),
{
    let one = set.choose();
    let rest = set.remove(one);
    if rest.len() == 0 {
        assert forall|place: usize| #[trigger] set.contains(place) implies place <= one by {
            if place != one {
                assert(rest.contains(place));
            }
        }
        one
    } else {
        let last = lemma_last_place(rest);
        assert forall|place: usize| #[trigger] set.contains(place) implies place <= (if one
            <= last {
            last
        } else {
            one
        }) by {
            if place != one {
                assert(rest.contains(place));
            }
        }
        if one <= last {
            last
        } else {
            one
        }
    }
}

/// Places stand in an ascending order.
proof fn lemma_places_ascend(set: Set<usize>) -> (places: Seq<usize>)
    requires
        set.finite(),
    ensures
        ascends(places, set),
    decreases set.len(),
{
    if set.len() == 0 {
        Seq::empty()
    } else {
        let last = lemma_last_place(set);
        let rest = set.remove(last);
        let before = lemma_places_ascend(rest);
        let places = before.push(last);
        assert forall|i: int, j: int| 0 <= i < j < places.len() implies places[i] < places[j] by {
            if j == before.len() {
                assert(before.contains(before[i]));
                assert(rest.contains(before[i]));
            }
        }
        assert forall|place: usize| #[trigger]
            set.contains(place) <==> places.contains(place) by {
            if set.contains(place) && place != last {
                assert(rest.contains(place));
                let i = choose|i: int| 0 <= i < before.len() && before[i] == place;
                assert(places[i] == place);
            }
            if place == last {
                assert(places[before.len() as int] == last);
            }
            if places.contains(place) && place != last {
                let i = choose|i: int| 0 <= i < places.len() && places[i] == place;
                assert(before[i] == place);
                assert(rest.contains(place));
            }
        }
        places
    }
}

/// Whether places are those of all the calls, each once and in ascending order, and the calls
/// are taken in their order.
pub open spec fn in_order_of(calls: PendingCalls, places: Seq<usize>) -> bool {
    &&& forall|i: int, j: int| 0 <= i < j < places.len() ==> places[i] < places[j]
    &&& forall|place: usize| #[trigger] calls.contains_key(place) <==> places.contains(place)
    &&& in_order(calls).len() == places.len()
    &&& forall|i: int|
        0 <= i < places.len() ==> #[trigger] in_order(calls)[i] == calls[places[i]]
}

/// The calls of an answer become messages in the ascending order of their places, each
/// once.
pub proof fn law_calls_in_order(calls: PendingCalls)
    requires
        calls.dom().finite(),
    ensures
        ascends(call_places(calls), calls.dom()),
        in_order(calls).len() == call_places(calls).len(),
        forall|i: int|
            0 <= i < in_order(calls).len() ==> #[trigger] in_order(calls)[i]
                == calls[call_places(calls)[i]],
        in_order(calls).len() == calls.len(),
        exists|places: Seq<usize>|
            #![trigger in_order_of(calls, places)]
            in_order_of(calls, places),
{
    let places = lemma_places_ascend(calls.dom());
    assert(ascends(places, calls.dom()));
    let chosen = call_places(calls);
    assert(chosen.no_duplicates());
    chosen.unique_seq_to_set();
    assert(chosen.to_set() =~= calls.dom()) by {
        assert forall|place: usize| chosen.to_set().contains(place) == calls.dom().contains(
            place,
        ) by {}
    }
    assert(in_order_of(calls, chosen));
}

/// A provider that tells nothing leaves a response of two events, without messages.
pub proof fn law_nothing_told(
    decoded: Seq<Option<Decoded>>,
    task_id: Seq<char>,
    request_id: Seq<char>,
    ids: OutputIdsView,
)
    ensures
        response(Seq::empty(), decoded, task_id, request_id, ids) == seq![
            first_event(request_id),
            last_event(),
        ],
{
    let answer = AnswerView::untold();
    law_calls_in_order(answer.calls);
    let places = call_places(answer.calls);
    if places.len() > 0 {
        assert(places.contains(places[0]));
        assert(answer.calls.dom().contains(places[0]));
    }
    assert(in_order(answer.calls) =~= Seq::empty());
    assert(is_blank(answer.text));
    assert(response(Seq::empty(), decoded, task_id, request_id, ids) =~= seq![
        first_event(request_id),
        last_event(),
    ]);
}

/// A call of a tool that is not offered becomes no message, and is no error.
pub proof fn law_unknown_tool(
    call: PendingToolCallView,
    decoded: Option<Decoded>,
    task_id: Seq<char>,
    request_id: Seq<char>,
    ids: CallIdsView,
)
    requires
        tool_named(trimmed(call.name)) is None,
    ensures
        call_message(call, decoded, task_id, request_id, ids) == Ok::<
            Option<TaskMessageView>,
            AIApiErrorView,
        >(None),
{
}

/// A call of an offered tool is never dropped where its arguments were decoded: it becomes a
/// message that calls the tool that it names, or it is an error.
pub proof fn law_offered_call(
    call: PendingToolCallView,
    decoded: Option<Decoded>,
    task_id: Seq<char>,
    request_id: Seq<char>,
    ids: CallIdsView,
)
    requires
        to_decode(call) is Some,
        answers(to_decode(call), decoded),
    ensures
        match call_message(call, decoded, task_id, request_id, ids) {
            Ok(Some(message)) => message.message matches Some(MessageKindView::ToolCall(stored))
                && stored.tool matches Some(tool) && tool_name_of(tool) == Some(trimmed(call.name)),
            Ok(None) => false,
            Err(_) => true,
        },
{
    law_tool_names();
}

/// How many calls name an offered tool.
pub open spec fn offered(calls: Seq<PendingToolCallView>) -> nat
    decreases calls.len(),
{
    if calls.len() == 0 {
        0
    } else {
        offered(calls.drop_last()) + if to_decode(calls.last()) is Some {
            1nat
        } else {
            0nat
        }
    }
}

/// Calls that end in no error become as many messages as there are calls of offered tools,
/// where the arguments of these were decoded.
pub proof fn law_offered_calls(
    calls: Seq<PendingToolCallView>,
    decoded: Seq<Option<Decoded>>,
    task_id: Seq<char>,
    request_id: Seq<char>,
    ids: Seq<CallIdsView>,
)
    requires
        forall|i: int|
            0 <= i < calls.len() ==> answers(to_decode(#[trigger] calls[i]), decoded[i]),
    ensures
        call_messages(calls, decoded, task_id, request_id, ids) matches Ok(messages)
            ==> messages.len() == offered(calls),
    decreases calls.len(),
{
    if calls.len() > 0 {
        let last = calls.len() - 1;
        assert(answers(to_decode(calls[last]), decoded[last]));
        assert forall|i: int| 0 <= i < calls.drop_last().len() implies answers(
            to_decode(#[trigger] calls.drop_last()[i]),
            decoded[i],
        ) by {
            assert(calls.drop_last()[i] == calls[i]);
        }
        law_offered_calls(calls.drop_last(), decoded, task_id, request_id, ids);
    }
}

/// A call that became a message is shown to the model again under the name that the model
/// gave and with the identifier that the message has, and a result for that identifier is
/// known to be one of this tool.
pub proof fn law_call_shown_again(
    call: PendingToolCallView,
    args: ToolArgsView,
    task_id: Seq<char>,
    request_id: Seq<char>,
    ids: CallIdsView,
    names: CallNames,
    fresh: Seq<char>,
)
    requires
        to_decode(call) is Some,
        answers(to_decode(call), Some(Ok(args))),
        tool_of(args) is Ok,
    ensures
        ({
            let message = call_message(call, Some(Ok(args)), task_id, request_id, ids)->Ok_0->0;
            let stored = message.message->0->ToolCall_0;
            let arguments = tool_arguments(stored.tool->0);
            &&& call_message(call, Some(Ok(args)), task_id, request_id, ids) matches Ok(Some(_))
            &&& message.message matches Some(MessageKindView::ToolCall(_))
            &&& !is_blank(call.id) ==> stored.tool_call_id == call.id
            &&& arguments is Some
            &&& shown(message, names, fresh) == Some(
                ChatMessageView::assistant_tool_calls(
                    seq![
                        function_call_view(
                            stored.tool_call_id,
                            trimmed(call.name),
                            json_text(arguments->0),
                        ),
                    ],
                ),
            )
            &&& is_call(
                shown(message, names, fresh)->0,
                stored.tool_call_id,
                trimmed(call.name),
                json_text(arguments->0),
            )
            &&& with_call_name(names, message) == names.insert(
                stored.tool_call_id,
                trimmed(call.name),
            )
        }),
{
    law_tool_names();
    reveal_strlit("local-tool-call-");
    if call.id.len() == 0 {
        assert(is_blank(call.id));
    }
}

/// An Anthropic model is shown the arguments of a call as they are, not as text, where the
/// text is read back: `to_openai_tool_call` promises that of arguments without doubles.
pub proof fn law_call_for_anthropic(call: ToolCallView, fresh: Seq<char>)
    requires
        openai_call(call, fresh) is Some,
        reads_back(call, openai_call(call, fresh)),
        exact_within(tool_arguments(call.tool->0)->0, 127),
    ensures
        tool_use(openai_call(call, fresh)->0) == (ContentBlockView::ToolUse {
            id: call_id(call.tool_call_id, fresh),
            name: tool_name_of(call.tool->0)->0,
            input: tool_arguments(call.tool->0)->0,
        }),
{
}

/// The arguments that are shown to the model again are those that it gave, with numbers as
/// doubles. A text that is missing or empty is shown as null. Of the two names of a skill the
/// path is shown where it is there.
pub proof fn law_arguments_kept(args: ToolArgsView)
    requires
        tool_of(args) is Ok,
    ensures
        ({
            let arguments = tool_arguments(tool_of(args)->Ok_0)->0;
            match args {
                ToolArgsView::RunShellCommand { command, wait_until_complete } => {
                    &&& json_get(arguments, "command"@) == Some(JsonView::Str(command))
                    &&& json_get(arguments, "wait_until_complete"@) == Some(
                        match wait_until_complete {
                            Some(wait) => JsonView::Bool(wait),
                            None => JsonView::Null,
                        },
                    )
                },
                ToolArgsView::CallMcpTool { name, args, server_id } => {
                    &&& json_get(arguments, "name"@) == Some(JsonView::Str(name))
                    &&& json_get(arguments, "args"@) == Some(
                        match args {
                            Some(args) => with_doubles(args),
                            None => JsonView::Null,
                        },
                    )
                    &&& json_get(arguments, "server_id"@) == Some(
                        filled_or_null(or_empty(server_id)),
                    )
                },
                ToolArgsView::ReadMcpResource { uri, server_id } => {
                    &&& json_get(arguments, "uri"@) == Some(JsonView::Str(uri))
                    &&& json_get(arguments, "server_id"@) == Some(
                        filled_or_null(or_empty(server_id)),
                    )
                },
                ToolArgsView::ReadSkill { name, skill_path, bundled_skill_id } => {
                    &&& json_get(arguments, "name"@) == Some(filled_or_null(or_empty(name)))
                    &&& json_get(arguments, "skill_path"@) == Some(
                        filled_or_null(or_empty(skill_path)),
                    )
                    &&& json_get(arguments, "bundled_skill_id"@) == Some(
                        if or_empty(skill_path).len() > 0 {
                            JsonView::Null
                        } else {
                            JsonView::Str(or_empty(bundled_skill_id))
                        },
                    )
                },
            }
        }),
{
    lemma_argument_keys();
    if let ToolArgsView::CallMcpTool { args: Some(value), .. } = args {
        law_json_through_proto(value);
        let fields = value->Object_0;
        lemma_object_to_proto(fields);
        lemma_struct_to_json(fields_to_proto(fields));
    }
}

/// Whether arguments are those that a JSON object has, field by field. A field that may be
/// missing is missing where the object has null there.
pub open spec fn has_fields(args: ToolArgsView, object: JsonView) -> bool {
    match args {
        ToolArgsView::RunShellCommand { command, wait_until_complete } => {
            &&& json_get(object, "command"@) == Some(JsonView::Str(command))
            &&& wait_until_complete == match json_get(object, "wait_until_complete"@) {
                Some(JsonView::Bool(wait)) => Some(wait),
                _ => None,
            }
        },
        ToolArgsView::CallMcpTool { name, args, server_id } => {
            &&& json_get(object, "name"@) == Some(JsonView::Str(name))
            &&& args == match json_get(object, "args"@) {
                Some(JsonView::Null) => None,
                found => found,
            }
            &&& server_id == json_get_str(object, "server_id"@)
        },
        ToolArgsView::ReadMcpResource { uri, server_id } => {
            &&& json_get(object, "uri"@) == Some(JsonView::Str(uri))
            &&& server_id == json_get_str(object, "server_id"@)
        },
        ToolArgsView::ReadSkill { name, skill_path, bundled_skill_id } => {
            &&& name == json_get_str(object, "name"@)
            &&& skill_path == json_get_str(object, "skill_path"@)
            &&& bundled_skill_id == json_get_str(object, "bundled_skill_id"@)
        },
    }
}

/// A tool whose arguments are written down and decoded again is the same tool, called with
/// the same things.
pub proof fn law_tool_read_again(tool: ToolView, args: ToolArgsView)
    requires
        arguments_tell(tool),
        local_tool(tool) == Some(args_tool(args)),
        has_fields(args, tool_arguments(tool)->0),
    ensures
        tool_of(args) == Ok::<ToolView, AIApiErrorView>(tool),
{
    lemma_argument_keys();
    assert forall|text: Seq<char>| #[trigger] text.len() == 0 implies text == Seq::<
        char,
    >::empty() by {
        assert(text =~= Seq::empty());
    }
    if let ToolView::CallMcpTool(call) = tool {
        if let Some(fields) = call.args {
            law_proto_through_json(ProtoView::Struct(fields));
            lemma_struct_to_json(fields);
            lemma_object_to_proto(fields_to_json(fields));
        }
    }
}

/// A stored call that is written for the model, and that the model writes again, becomes the
/// stored call again: under its identifier, and with the tool and what it is called with.
/// `args` is what the written text decodes to; `to_openai_tool_call` promises `reads_back`.
pub proof fn law_call_read_again(
    call: ToolCallView,
    fresh: Seq<char>,
    args: ToolArgsView,
    task_id: Seq<char>,
    request_id: Seq<char>,
    ids: CallIdsView,
)
    requires
        !is_blank(call.tool_call_id),
        call.tool matches Some(tool) && arguments_tell(tool) && exact_within(
            tool_arguments(tool)->0,
            127,
        ) && local_tool(tool) == Some(args_tool(args)),
        reads_back(call, openai_call(call, fresh)),
        openai_call(call, fresh) matches Some(written) ==> has_fields(
            args,
            arguments_value(written.function.arguments),
        ),
    ensures
        openai_call(call, fresh) matches Some(written) && {
            let again = PendingToolCallView {
                id: written.id,
                name: written.function.name,
                arguments: written.function.arguments,
            };
            &&& to_decode(again) == Some(
                DecodeRequestView { tool: args_tool(args), arguments: written.function.arguments },
            )
            &&& call_message(again, Some(Ok(args)), task_id, request_id, ids) matches Ok(
                Some(message),
            )
            &&& message.message == Some(MessageKindView::ToolCall(call))
            &&& message.task_id == task_id
            &&& message.request_id == request_id
        },
{
    let tool = call.tool->0;
    law_tool_read_again(tool, args);
    law_tool_names();
    lemma_tool_name_trimmed(args_tool(args));
}

/// The name of a tool has no white space at its ends.
proof fn lemma_tool_name_trimmed(tool: LocalTool)
    ensures
        trimmed(local_tool_name(tool)) == local_tool_name(tool),
{
    reveal_strlit("run_shell_command");
    reveal_strlit("call_mcp_tool");
    reveal_strlit("read_mcp_resource");
    reveal_strlit("read_skill");
    let name = local_tool_name(tool);
    assert(!is_white_space(name.first()) && !is_white_space(name.last()));
}

/// The keys of a tool's arguments are distinct.
proof fn lemma_argument_keys()
    ensures
        "command"@ != "wait_until_complete"@,
        "name"@ != "args"@,
        "name"@ != "server_id"@,
        "args"@ != "server_id"@,
        "uri"@ != "server_id"@,
        "name"@ != "skill_path"@,
        "name"@ != "bundled_skill_id"@,
        "skill_path"@ != "bundled_skill_id"@,
{
    reveal_strlit("command");
    reveal_strlit("wait_until_complete");
    reveal_strlit("name");
    reveal_strlit("args");
    reveal_strlit("server_id");
    reveal_strlit("uri");
    reveal_strlit("skill_path");
    reveal_strlit("bundled_skill_id");
    assert("command"@.len() != "wait_until_complete"@.len());
    assert("name"@[0] != "args"@[0]);
    assert("uri"@.len() != "server_id"@.len());
    assert("skill_path"@.len() != "bundled_skill_id"@.len());
}

/// What the agent said is shown to the model again as what the assistant said.
pub proof fn law_text_shown_again(
    text: Seq<char>,
    task_id: Seq<char>,
    request_id: Seq<char>,
    id: Seq<char>,
    names: CallNames,
    fresh: Seq<char>,
)
    requires
        !is_blank(text),
    ensures
        shown(output_message(task_id, request_id, text, id), names, fresh) == Some(
            ChatMessageView::assistant(text),
        ),
        shown(agent_says(task_id, request_id, text, id), names, fresh) matches Some(said)
            && is_assistant(said, text),
{
}

} // verus!
