//! What holds of an answer as it grows.
use vstd::prelude::*;

use crate::anthropic::{payload_event, StreamEventView};
use crate::calls::{merged, PendingCalls, PendingToolCallView};
use crate::error::AIApiErrorView;
use crate::json::{json_parse, json_text, JsonView};
use crate::laws::{law_content_filter, said};
use crate::openai::{ChatCompletionChunkView, ChunkChoiceView, ToolCallDeltaView};
use crate::stream::{
    after_event, after_input, merged_all, with_choice, with_choices, Answer, AnswerView,
    StreamControlView, StreamInputView,
};
use crate::text::{is_blank, trimmed};

verus! {

/// The calls of an answer are seen as they are held: each at its place, with its identifier,
/// its name and its arguments.
pub proof fn law_calls_seen(answer: Answer, place: usize)
    ensures
        answer.deep_view().text == answer.full_text@,
        answer.deep_view().calls.contains_key(place) == answer.pending_tool_calls@.contains_key(
            place,
        ),
        answer.pending_tool_calls@.contains_key(place) ==> {
            let held = answer.pending_tool_calls@[place];
            let seen = answer.deep_view().calls[place];
            seen.id == held.id@ && seen.name == held.name@ && seen.arguments == held.arguments@
        },
        AnswerView::untold().text.len() == 0,
        !AnswerView::untold().calls.contains_key(place),
{
}

/// The block that an event of a messages stream speaks of, if it is one of a call.
pub open spec fn event_place(event: StreamEventView) -> Option<usize> {
    match event {
        StreamEventView::ToolUseStart { index, .. } => Some(index),
        StreamEventView::ToolUseInputDelta { index, .. } => Some(index),
        StreamEventView::ToolUseStop { index } => Some(index),
        _ => None,
    }
}

/// An event leaves every call alone but the one that it speaks of.
pub proof fn law_event_keeps_other_calls(answer: AnswerView, event: StreamEventView, other: usize)
    requires
        event_place(event) != Some(other),
    ensures
        after_event(answer, event).answer.calls.contains_key(other) == answer.calls.contains_key(
            other,
        ),
        answer.calls.contains_key(other) ==> after_event(answer, event).answer.calls[other]
            == answer.calls[other],
{
}

/// Only text adds to the text of an answer, and it adds itself at the end.
pub proof fn law_event_text(answer: AnswerView, event: StreamEventView)
    ensures
        after_event(answer, event).answer.text == (match event {
            StreamEventView::TextDelta(text) => answer.text + text,
            _ => answer.text,
        }),
{
}

/// A messages stream is read until it stops, a content filter blocks it or the provider
/// reports an error. An overloaded provider is told apart; any other error says its kind and
/// its message.
pub proof fn law_event_control(answer: AnswerView, event: StreamEventView)
    ensures
        match (event, after_event(answer, event).control) {
            (StreamEventView::MessageStop, StreamControlView::Break) => true,
            (
                StreamEventView::ContentFiltered,
                StreamControlView::Fail(AIApiErrorView::Other(words)),
            ) => words == "Local model response was blocked by a content filter."@,
            (StreamEventView::Error { kind, message }, StreamControlView::Fail(error)) => {
                &&& kind == "overloaded_error"@ <==> error is ServerOverloaded
                &&& kind != "overloaded_error"@ ==> error == AIApiErrorView::Other(
                    "Anthropic stream error ("@ + kind + "): "@ + message,
                )
            },
            (StreamEventView::TextDelta(_), StreamControlView::Continue) => true,
            (StreamEventView::ToolUseStart { .. }, StreamControlView::Continue) => true,
            (StreamEventView::ToolUseInputDelta { .. }, StreamControlView::Continue) => true,
            (StreamEventView::ToolUseStop { .. }, StreamControlView::Continue) => true,
            _ => false,
        },
{
}

/// A call that starts has the identifier and the name that it starts with, and keeps those
/// that it had where it starts with none. Its arguments are the input that it starts with: none
/// yet where that is an empty object, and an empty object where it is null.
pub proof fn law_tool_use_start(
    answer: AnswerView,
    index: usize,
    id: Seq<char>,
    name: Seq<char>,
    input: Option<JsonView>,
)
    ensures
        ({
            let event = StreamEventView::ToolUseStart { index, id, name, input };
            let calls = after_event(answer, event).answer.calls;
            let known = answer.calls.contains_key(index);
            let before = answer.calls[index];
            let call = calls[index];
            &&& calls.contains_key(index)
            &&& id.len() > 0 ==> call.id == id
            &&& id.len() == 0 && known ==> call.id == before.id
            &&& id.len() == 0 && !known ==> call.id.len() == 0
            &&& name.len() > 0 ==> call.name == name
            &&& name.len() == 0 && known ==> call.name == before.name
            &&& name.len() == 0 && !known ==> call.name.len() == 0
            &&& match input {
                Some(JsonView::Null) => call.arguments == "{}"@,
                Some(JsonView::Object(fields)) if fields == Map::<Seq<char>, JsonView>::empty() =>
                    call.arguments.len() == 0,
                Some(value) => call.arguments == json_text(value),
                None => if known {
                    call.arguments == before.arguments
                } else {
                    call.arguments.len() == 0
                },
            }
        }),
{
}

/// A part of a call's input is added behind what was told of it, and changes nothing else.
pub proof fn law_tool_use_input(answer: AnswerView, index: usize, partial_json: Seq<char>)
    ensures
        ({
            let event = StreamEventView::ToolUseInputDelta { index, partial_json };
            let calls = after_event(answer, event).answer.calls;
            let call = calls[index];
            &&& calls.contains_key(index)
            &&& if answer.calls.contains_key(index) {
                let before = answer.calls[index];
                &&& call.id == before.id
                &&& call.name == before.name
                &&& call.arguments == before.arguments + partial_json
            } else {
                &&& call.id.len() == 0
                &&& call.name.len() == 0
                &&& call.arguments == partial_json
            }
        }),
{
    assert(Seq::<char>::empty() + partial_json =~= partial_json);
}

/// A call that stops keeps its identifier and its name. Its input is an empty object where
/// nothing was told of it or it is null, the compact text of its value where it is JSON, and
/// what it was where it is not. No call comes or goes.
pub proof fn law_tool_use_stop(answer: AnswerView, index: usize)
    ensures
        ({
            let calls = after_event(answer, StreamEventView::ToolUseStop { index }).answer.calls;
            &&& calls.dom() == answer.calls.dom()
            &&& answer.calls.contains_key(index) ==> {
                let before = answer.calls[index];
                let call = calls[index];
                &&& call.id == before.id
                &&& call.name == before.name
                &&& if is_blank(before.arguments) {
                    call.arguments == "{}"@
                } else {
                    match json_parse(trimmed(before.arguments)) {
                        Ok(JsonView::Null) => call.arguments == "{}"@,
                        Ok(value) => call.arguments == json_text(value),
                        Err(_) => call.arguments == before.arguments,
                    }
                }
            }
        }),
{
    assert(after_event(answer, StreamEventView::ToolUseStop { index }).answer.calls.dom()
        =~= answer.calls.dom());
}

/// An answer after events, one behind the other.
pub open spec fn after_events(answer: AnswerView, events: Seq<StreamEventView>) -> AnswerView
    decreases events.len(),
{
    if events.len() == 0 {
        answer
    } else {
        after_event(after_events(answer, events.drop_last()), events.last()).answer
    }
}

/// Whether an event tells something of the call at a place: it starts it, or adds to its input.
pub open spec fn tells_of(event: StreamEventView, place: usize) -> bool {
    match event {
        StreamEventView::ToolUseStart { index, .. } => index == place,
        StreamEventView::ToolUseInputDelta { index, .. } => index == place,
        _ => false,
    }
}

/// There is a call at a place exactly where there was one or an event told something of it, and
/// no event takes one away.
pub proof fn law_calls_told(answer: AnswerView, events: Seq<StreamEventView>, place: usize)
    ensures
        after_events(answer, events).calls.contains_key(place) <==> answer.calls.contains_key(place)
            || exists|i: int| 0 <= i < events.len() && tells_of(#[trigger] events[i], place),
    decreases events.len(),
{
    if events.len() > 0 {
        let rest = events.drop_last();
        let event = events[events.len() - 1];
        let before = after_events(answer, rest);
        law_calls_told(answer, rest, place);
        if exists|i: int| 0 <= i < rest.len() && tells_of(#[trigger] rest[i], place) {
            let i = choose|i: int| 0 <= i < rest.len() && tells_of(#[trigger] rest[i], place);
            assert(tells_of(events[i], place));
        }
        if exists|i: int| 0 <= i < events.len() && tells_of(#[trigger] events[i], place) {
            let i = choose|i: int| 0 <= i < events.len() && tells_of(#[trigger] events[i], place);
            if i < rest.len() {
                assert(tells_of(rest[i], place));
            }
        }
        if tells_of(event, place) {
            assert(after_event(before, event).answer.calls.contains_key(place));
        } else {
            assert(after_event(before, event).answer.calls.contains_key(place)
                == before.calls.contains_key(place));
        }
    }
}

/// Calls that run in parallel are all kept: after the starts of calls at different places
/// there is one call at each of them, with its own identifier and name, and no other.
pub proof fn law_parallel_calls(events: Seq<StreamEventView>)
    requires
        forall|i: int| 0 <= i < events.len() ==> (#[trigger] events[i]) is ToolUseStart,
        forall|i: int, j: int|
            0 <= i < j < events.len() ==> event_place(#[trigger] events[i]) != event_place(
                #[trigger] events[j],
            ),
    ensures
        ({
            let calls = after_events(AnswerView::untold(), events).calls;
            &&& calls.dom().finite()
            &&& calls.len() == events.len()
            &&& forall|i: int|
                0 <= i < events.len() ==> (
                #[trigger] events[i] matches StreamEventView::ToolUseStart { index, id, name, .. }
                    && calls.contains_key(index) && calls[index].id == id && calls[index].name
                    == name)
            &&& forall|place: usize| #[trigger]
                calls.contains_key(place) ==> exists|i: int|
                    0 <= i < events.len() && event_place(#[trigger] events[i]) == Some(place)
        }),
    decreases events.len(),
{
    if events.len() > 0 {
        let rest = events.drop_last();
        assert forall|i: int| 0 <= i < rest.len() implies (#[trigger] rest[i]) is ToolUseStart by {
            assert(rest[i] == events[i]);
        }
        assert forall|i: int, j: int| 0 <= i < j < rest.len() implies event_place(
            #[trigger] rest[i],
        ) != event_place(#[trigger] rest[j]) by {
            assert(rest[i] == events[i] && rest[j] == events[j]);
        }
        law_parallel_calls(rest);
        let before = after_events(AnswerView::untold(), rest);
        let event = events[events.len() - 1];
        assert(event is ToolUseStart);
        let calls = after_events(AnswerView::untold(), events).calls;
        if let StreamEventView::ToolUseStart { index, id, name, input } = event {
            law_tool_use_start(before, index, id, name, input);
            if before.calls.contains_key(index) {
                let i = choose|i: int|
                    0 <= i < rest.len() && event_place(#[trigger] rest[i]) == Some(index);
                assert(events[i] == rest[i]);
                assert(event_place(events[i]) != event_place(event));
            }
            assert(id.len() == 0 ==> id =~= calls[index].id);
            assert(name.len() == 0 ==> name =~= calls[index].name);
            assert forall|i: int| 0 <= i < events.len() implies (
            #[trigger] events[i] matches StreamEventView::ToolUseStart { index, id, name, .. }
                && calls.contains_key(index) && calls[index].id == id && calls[index].name
                == name) by {
                if i < rest.len() {
                    assert(events[i] == rest[i]);
                    law_event_keeps_other_calls(before, event, event_place(events[i])->0);
                }
            }
            assert forall|place: usize| #[trigger] calls.contains_key(place) implies exists|i: int|
                0 <= i < events.len() && event_place(#[trigger] events[i]) == Some(place) by {
                if place == index {
                    assert(event_place(events[events.len() - 1]) == Some(place));
                } else {
                    law_event_keeps_other_calls(before, event, place);
                    let i = choose|i: int|
                        0 <= i < rest.len() && event_place(#[trigger] rest[i]) == Some(place);
                    assert(events[i] == rest[i]);
                }
            }
            assert(calls.dom() =~= before.calls.dom().insert(index)) by {
                assert forall|place: usize| place != index implies calls.dom().contains(place)
                    == before.calls.dom().contains(place) by {
                    law_event_keeps_other_calls(before, event, place);
                }
            }
        }
    }
}

/// What a part of a call tells of its arguments.
pub open spec fn arguments_in(delta: ToolCallDeltaView) -> Seq<char> {
    match delta.function {
        Some(function) => match function.arguments {
            Some(arguments) => arguments,
            None => Seq::empty(),
        },
        None => Seq::empty(),
    }
}

/// What a part of a call tells of its name.
pub open spec fn name_in(delta: ToolCallDeltaView) -> Seq<char> {
    match delta.function {
        Some(function) => match function.name {
            Some(name) => name,
            None => Seq::empty(),
        },
        None => Seq::empty(),
    }
}

/// The identifier that a part of a call gives it; an empty one is none.
pub open spec fn id_in(delta: ToolCallDeltaView) -> Option<Seq<char>> {
    match delta.id {
        Some(id) => if id.len() > 0 {
            Some(id)
        } else {
            None
        },
        None => None,
    }
}

/// Whether a call is another with a part of it added: name and arguments grow by what the
/// part tells of each, whatever else it tells, and an identifier takes the place of the old
/// one.
pub open spec fn grows(
    before: PendingToolCallView,
    call: PendingToolCallView,
    delta: ToolCallDeltaView,
) -> bool {
    &&& call.arguments == before.arguments + arguments_in(delta)
    &&& call.name == before.name + name_in(delta)
    &&& call.id == match id_in(delta) {
        Some(id) => id,
        None => before.id,
    }
}

/// A call of which nothing is told.
pub open spec fn silent() -> PendingToolCallView {
    PendingToolCallView { id: Seq::empty(), name: Seq::empty(), arguments: Seq::empty() }
}

/// A part of a call goes to the place that it names, or else to the place behind as many calls
/// as there are. The call there grows by it, and starts with it where there was none. The
/// other calls stay.
pub proof fn law_part_merged(calls: PendingCalls, delta: ToolCallDeltaView)
    requires
        calls.len() <= usize::MAX,
    ensures
        ({
            let place = match delta.index {
                Some(index) => index,
                None => calls.len() as usize,
            };
            let after = merged(calls, delta);
            &&& after.dom() == calls.dom().insert(place)
            &&& grows(
                if calls.contains_key(place) {
                    calls[place]
                } else {
                    silent()
                },
                after[place],
                delta,
            )
            &&& forall|other: usize|
                other != place && calls.contains_key(other) ==> #[trigger] after[other]
                    == calls[other]
        }),
{
    let place = match delta.index {
        Some(index) => index,
        None => calls.len() as usize,
    };
    let after = merged(calls, delta);
    assert(after.dom() =~= calls.dom().insert(place));
    let before = if calls.contains_key(place) {
        calls[place]
    } else {
        silent()
    };
    assert(before.arguments + Seq::<char>::empty() =~= before.arguments);
    assert(before.name + Seq::<char>::empty() =~= before.name);
}

/// What parts of calls tell of the arguments of the one at a place, in order.
pub open spec fn arguments_told(deltas: Seq<ToolCallDeltaView>, place: usize) -> Seq<char>
    decreases deltas.len(),
{
    if deltas.len() == 0 {
        Seq::empty()
    } else if deltas.last().index == Some(place) {
        arguments_told(deltas.drop_last(), place) + arguments_in(deltas.last())
    } else {
        arguments_told(deltas.drop_last(), place)
    }
}

/// What parts of calls tell of the name of the one at a place, in order.
pub open spec fn name_told(deltas: Seq<ToolCallDeltaView>, place: usize) -> Seq<char>
    decreases deltas.len(),
{
    if deltas.len() == 0 {
        Seq::empty()
    } else if deltas.last().index == Some(place) {
        name_told(deltas.drop_last(), place) + name_in(deltas.last())
    } else {
        name_told(deltas.drop_last(), place)
    }
}

/// The last identifier that parts of calls give the one at a place.
pub open spec fn id_told(deltas: Seq<ToolCallDeltaView>, place: usize) -> Option<Seq<char>>
    decreases deltas.len(),
{
    if deltas.len() == 0 {
        None
    } else if deltas.last().index == Some(place) && id_in(deltas.last()) is Some {
        id_in(deltas.last())
    } else {
        id_told(deltas.drop_last(), place)
    }
}

/// Whether the calls are others with parts added: at each place there is a call where there
/// was one or a part is for it, and its arguments and its name are those that it had followed
/// by those of all the parts for it.
pub open spec fn tells_all(
    calls: PendingCalls,
    after: PendingCalls,
    deltas: Seq<ToolCallDeltaView>,
) -> bool {
    forall|place: usize|
        {
            let before = if calls.contains_key(place) {
                calls[place]
            } else {
                silent()
            };
            &&& #[trigger] after.contains_key(place) <==> calls.contains_key(place) || exists|
                i: int,
            |
                0 <= i < deltas.len() && (#[trigger] deltas[i]).index == Some(place)
            &&& after.contains_key(place) ==> {
                &&& after[place].arguments == before.arguments + arguments_told(deltas, place)
                &&& after[place].name == before.name + name_told(deltas, place)
                &&& after[place].id == match id_told(deltas, place) {
                    Some(id) => id,
                    None => before.id,
                }
            }
        }
}

/// The arguments of a call are those of all the parts for its place, one behind the other, and
/// so is its name; its identifier is the last that a part gives.
pub proof fn law_parts_collected(calls: PendingCalls, deltas: Seq<ToolCallDeltaView>)
    requires
        forall|i: int| 0 <= i < deltas.len() ==> (#[trigger] deltas[i]).index is Some,
    ensures
        tells_all(calls, merged_all(calls, deltas), deltas),
    decreases deltas.len(),
{
    let after = merged_all(calls, deltas);
    if deltas.len() == 0 {
        assert forall|place: usize| calls.contains_key(place) implies calls[place].arguments
            == #[trigger] calls[place].arguments + arguments_told(deltas, place)
            && calls[place].name == calls[place].name + name_told(deltas, place) by {
            assert(calls[place].arguments + Seq::<char>::empty() =~= calls[place].arguments);
            assert(calls[place].name + Seq::<char>::empty() =~= calls[place].name);
        }
    } else {
        let rest = deltas.drop_last();
        let delta = deltas[deltas.len() - 1];
        assert forall|i: int| 0 <= i < rest.len() implies (#[trigger] rest[i]).index is Some by {
            assert(rest[i] == deltas[i]);
        }
        law_parts_collected(calls, rest);
        let between = merged_all(calls, rest);
        let index = delta.index->0;
        assert forall|place: usize| #[trigger]
            after.contains_key(place) <==> calls.contains_key(place) || exists|i: int|
                0 <= i < deltas.len() && (#[trigger] deltas[i]).index == Some(place) by {
            assert(between.contains_key(place) ==> place == index || after.contains_key(place));
            if between.contains_key(place) && !calls.contains_key(place) {
                let i = choose|i: int|
                    0 <= i < rest.len() && (#[trigger] rest[i]).index == Some(place);
                assert(deltas[i] == rest[i]);
            }
            if exists|i: int| 0 <= i < deltas.len() && (#[trigger] deltas[i]).index == Some(place) {
                let i = choose|i: int|
                    0 <= i < deltas.len() && (#[trigger] deltas[i]).index == Some(place);
                if i < rest.len() {
                    assert(rest[i] == deltas[i]);
                    assert(between.contains_key(place));
                }
            }
            if place == index {
                assert(deltas[deltas.len() - 1].index == Some(place));
            }
        }
        assert forall|place: usize| #[trigger] after.contains_key(place) implies ({
            let before = if calls.contains_key(place) {
                calls[place]
            } else {
                silent()
            };
            &&& after[place].arguments == before.arguments + arguments_told(deltas, place)
            &&& after[place].name == before.name + name_told(deltas, place)
            &&& after[place].id == match id_told(deltas, place) {
                Some(id) => id,
                None => before.id,
            }
        }) by {
            let before = if calls.contains_key(place) {
                calls[place]
            } else {
                silent()
            };
            let arguments = arguments_told(rest, place);
            let name = name_told(rest, place);
            assert((before.arguments + arguments) + arguments_in(delta) =~= before.arguments + (
            arguments + arguments_in(delta)));
            assert((before.name + name) + name_in(delta) =~= before.name + (name + name_in(
                delta,
            )));
            if !between.contains_key(place) {
                assert(!calls.contains_key(place));
                lemma_nothing_told(rest, place);
                assert(before.arguments + arguments =~= Seq::empty());
                assert(before.name + name =~= Seq::empty());
            }
            let old = if between.contains_key(place) {
                between[place]
            } else {
                silent()
            };
            assert(old.arguments + Seq::<char>::empty() =~= old.arguments);
            assert(old.name + Seq::<char>::empty() =~= old.name);
        }
    }
}

/// Parts for other places tell nothing of a call.
proof fn lemma_nothing_told(deltas: Seq<ToolCallDeltaView>, place: usize)
    requires
        forall|i: int| 0 <= i < deltas.len() ==> (#[trigger] deltas[i]).index != Some(place),
    ensures
        arguments_told(deltas, place).len() == 0,
        name_told(deltas, place).len() == 0,
        id_told(deltas, place) is None,
    decreases deltas.len(),
{
    if deltas.len() > 0 {
        assert(deltas[deltas.len() - 1].index != Some(place));
        assert forall|i: int| 0 <= i < deltas.drop_last().len() implies (
        #[trigger] deltas.drop_last()[i]).index != Some(place) by {
            assert(deltas.drop_last()[i] == deltas[i]);
        }
        lemma_nothing_told(deltas.drop_last(), place);
    }
}

/// The parts of calls in choices, in order.
pub open spec fn parts(choices: Seq<ChunkChoiceView>) -> Seq<ToolCallDeltaView>
    decreases choices.len(),
{
    if choices.len() == 0 {
        Seq::empty()
    } else {
        choices.first().delta.tool_calls + parts(choices.drop_first())
    }
}

/// Whether a content filter ended one of the choices.
pub open spec fn blocked(choices: Seq<ChunkChoiceView>) -> bool {
    exists|i: int|
        0 <= i < choices.len() && (#[trigger] choices[i]).finish_reason == Some("content_filter"@)
}

/// Parts are added one by one, in order.
pub proof fn law_parts_in_order(
    calls: PendingCalls,
    a: Seq<ToolCallDeltaView>,
    b: Seq<ToolCallDeltaView>,
)
    ensures
        merged_all(calls, a + b) == merged_all(merged_all(calls, a), b),
        a.len() == 0 ==> merged_all(calls, a) == calls,
        a.len() == 1 ==> merged_all(calls, a) == merged(calls, a[0]),
    decreases b.len(),
{
    if b.len() == 0 {
        assert(a + b =~= a);
    } else {
        assert((a + b).drop_last() =~= a + b.drop_last());
        law_parts_in_order(calls, a, b.drop_last());
    }
    if a.len() == 1 {
        assert(merged_all(calls, a.drop_last()) == calls);
    }
}

/// A chunk that no content filter ended adds all of its text and all of its parts of calls to
/// the answer, in order, and is read on from.
pub proof fn law_chunk_collected(answer: AnswerView, choices: Seq<ChunkChoiceView>)
    requires
        !blocked(choices),
    ensures
        with_choices(answer, choices).answer.text == answer.text + said(choices),
        with_choices(answer, choices).answer.calls == merged_all(answer.calls, parts(choices)),
        with_choices(answer, choices).control is Continue,
    decreases choices.len(),
{
    if choices.len() == 0 {
        assert(answer.text + said(choices) =~= answer.text);
    } else {
        let rest = choices.drop_first();
        let next = with_choice(answer, choices.first());
        assert(choices[0].finish_reason != Some("content_filter"@));
        assert(!blocked(rest)) by {
            if blocked(rest) {
                let i = choose|i: int|
                    0 <= i < rest.len() && (#[trigger] rest[i]).finish_reason == Some(
                        "content_filter"@,
                    );
                assert(choices[i + 1] == rest[i]);
            }
        }
        law_chunk_collected(next, rest);
        assert(next.text + said(rest) =~= answer.text + said(choices));
        law_parts_in_order(answer.calls, choices.first().delta.tool_calls, parts(rest));
    }
}

/// The arguments and the name of each call of an answer are those that it had followed by all
/// that a chunk tells of them, where no content filter ended the chunk and its parts say which
/// call they are for.
pub proof fn law_chunk_calls(answer: AnswerView, choices: Seq<ChunkChoiceView>)
    requires
        !blocked(choices),
        forall|i: int|
            0 <= i < parts(choices).len() ==> (#[trigger] parts(choices)[i]).index is Some,
    ensures
        tells_all(answer.calls, with_choices(answer, choices).answer.calls, parts(choices)),
{
    law_chunk_collected(answer, choices);
    law_parts_collected(answer.calls, parts(choices));
}

/// What comes of data of a chat-completions stream. The mark of its end ends the answer; data
/// that does not decode ends the response with an error that says why and shows the data; a
/// chunk is added, unless a content filter ended it.
pub proof fn law_chat_data(
    answer: AnswerView,
    data: Seq<char>,
    decoded: Result<ChatCompletionChunkView, Seq<char>>,
)
    ensures
        ({
            let step = after_input(answer, StreamInputView::ChatData { data, decoded });
            if trimmed(data) == "[DONE]"@ {
                step.answer == answer && step.control is Break
            } else {
                match decoded {
                    Err(error) => step.answer == answer && step.control == StreamControlView::Fail(
                        AIApiErrorView::Other(
                            "Failed to parse local SSE chunk: "@ + error + "; data="@ + data,
                        ),
                    ),
                    Ok(chunk) => if blocked(chunk.choices) {
                        step.control == StreamControlView::Fail(
                            AIApiErrorView::Other(
                                "Local model response was blocked by a content filter."@,
                            ),
                        )
                    } else {
                        &&& step.control is Continue
                        &&& step.answer.text == answer.text + said(chunk.choices)
                        &&& step.answer.calls == merged_all(answer.calls, parts(chunk.choices))
                    },
                }
            }
        }),
{
    if let Ok(chunk) = decoded {
        law_content_filter(answer, chunk.choices);
        if !blocked(chunk.choices) {
            law_chunk_collected(answer, chunk.choices);
        }
    }
}

/// What comes of data of a messages stream. Data that is blank or the mark of its end tells
/// nothing; data that is not JSON ends the response with an error that says why and shows the
/// data; a payload does what the event in it does, and nothing where it holds none.
pub proof fn law_messages_data(answer: AnswerView, data: Seq<char>)
    ensures
        ({
            let step = after_input(answer, StreamInputView::MessagesData(data));
            let text = trimmed(data);
            if is_blank(data) || text == "[DONE]"@ {
                step.answer == answer && step.control is Continue
            } else {
                match json_parse(text) {
                    Err(error) => step.answer == answer && step.control == StreamControlView::Fail(
                        AIApiErrorView::Other(
                            "Failed to parse anthropic SSE event: "@ + error + "; data="@ + text,
                        ),
                    ),
                    Ok(payload) => match payload_event(payload) {
                        Some(event) => step == after_event(answer, event),
                        None => step.answer == answer && step.control is Continue,
                    },
                }
            }
        }),
{
}

/// A stream that fails ends the response with its own error, and leaves the answer.
pub proof fn law_failed_stream(answer: AnswerView, error: AIApiErrorView)
    ensures
        after_input(answer, StreamInputView::Failed(error)).answer == answer,
        after_input(answer, StreamInputView::Failed(error)).control == StreamControlView::Fail(
            error,
        ),
{
}

} // verus!
