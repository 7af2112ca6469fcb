//! What the events of a messages stream tell, by what their payloads hold.
use vstd::prelude::*;

use crate::anthropic::{event_index, payload_event, StreamEventView};
use crate::json::{JsonView, NumberView};

verus! {

/// Whether an object has a value under a key.
pub open spec fn has(object: JsonView, key: Seq<char>, value: JsonView) -> bool {
    object matches JsonView::Object(fields) && fields.contains_key(key) && fields[key] == value
}

/// Whether an object has a text under a key.
pub open spec fn says(object: JsonView, key: Seq<char>, text: Seq<char>) -> bool {
    has(object, key, JsonView::Str(text))
}

/// Whether a value has no text under a key: it is no object, has nothing there, or has
/// something else there.
pub open spec fn silent_on(object: JsonView, key: Seq<char>) -> bool {
    forall|text: Seq<char>| !#[trigger] says(object, key, text)
}

/// Whether a value has nothing under a key.
pub open spec fn lacks(object: JsonView, key: Seq<char>) -> bool {
    forall|value: JsonView| !#[trigger] has(object, key, value)
}

/// Whether `index` is the block that a payload speaks of: the number under `index`, and zero
/// where there is none.
pub open spec fn speaks_of(payload: JsonView, index: usize) -> bool {
    if exists|n: u64| #[trigger] has(payload, "index"@, JsonView::Number(NumberView::PosInt(n))) {
        exists|n: u64| #[trigger]
            has(payload, "index"@, JsonView::Number(NumberView::PosInt(n))) && index == n as usize
    } else {
        index == 0
    }
}

/// Whether `text` is the text that an object has under a key, and empty where it has none.
pub open spec fn says_or_empty(object: JsonView, key: Seq<char>, text: Seq<char>) -> bool {
    says(object, key, text) || silent_on(object, key) && text.len() == 0
}

proof fn lemma_silent(object: JsonView, key: Seq<char>)
    requires
        silent_on(object, key),
    ensures
        object matches JsonView::Object(fields) ==> (fields.contains_key(key) ==> !(
        fields[key] is Str)),
{
    if let JsonView::Object(fields) = object {
        if fields.contains_key(key) {
            if let JsonView::Str(text) = fields[key] {
                assert(says(object, key, text));
            }
        }
    }
}

proof fn lemma_lacks(object: JsonView, key: Seq<char>)
    requires
        lacks(object, key),
    ensures
        object matches JsonView::Object(fields) ==> !fields.contains_key(key),
{
    if let JsonView::Object(fields) = object {
        if fields.contains_key(key) {
            assert(has(object, key, fields[key]));
        }
    }
}

proof fn lemma_index(payload: JsonView, index: usize)
    requires
        speaks_of(payload, index),
    ensures
        event_index(payload) == index,
{
    if exists|n: u64| #[trigger] has(payload, "index"@, JsonView::Number(NumberView::PosInt(n))) {
    } else {
        if let JsonView::Object(fields) = payload {
            if fields.contains_key("index"@) {
                if let JsonView::Number(NumberView::PosInt(n)) = fields["index"@] {
                    assert(has(payload, "index"@, JsonView::Number(NumberView::PosInt(n))));
                }
            }
        }
    }
}

proof fn lemma_event_types()
    ensures
        "content_block_start"@ != "content_block_delta"@,
        "content_block_start"@ != "content_block_stop"@,
        "content_block_start"@ != "message_delta"@,
        "content_block_start"@ != "message_stop"@,
        "content_block_start"@ != "error"@,
        "content_block_delta"@ != "content_block_stop"@,
        "content_block_delta"@ != "message_delta"@,
        "content_block_delta"@ != "message_stop"@,
        "content_block_delta"@ != "error"@,
        "content_block_stop"@ != "message_delta"@,
        "content_block_stop"@ != "message_stop"@,
        "content_block_stop"@ != "error"@,
        "message_delta"@ != "message_stop"@,
        "message_delta"@ != "error"@,
        "message_stop"@ != "error"@,
        "text"@ != "tool_use"@,
        "text_delta"@ != "input_json_delta"@,
{
    reveal_strlit("content_block_start");
    reveal_strlit("content_block_delta");
    reveal_strlit("content_block_stop");
    reveal_strlit("message_delta");
    reveal_strlit("message_stop");
    reveal_strlit("error");
    reveal_strlit("text");
    reveal_strlit("tool_use");
    reveal_strlit("text_delta");
    reveal_strlit("input_json_delta");
    assert("content_block_start"@[14] != "content_block_delta"@[14]);
    assert("content_block_start"@.len() != "content_block_stop"@.len());
    assert("content_block_delta"@.len() != "content_block_stop"@.len());
    assert("content_block_start"@.len() != "message_delta"@.len());
    assert("content_block_start"@.len() != "message_stop"@.len());
    assert("content_block_start"@.len() != "error"@.len());
    assert("content_block_delta"@.len() != "message_delta"@.len());
    assert("content_block_delta"@.len() != "message_stop"@.len());
    assert("content_block_delta"@.len() != "error"@.len());
    assert("content_block_stop"@.len() != "message_delta"@.len());
    assert("content_block_stop"@.len() != "message_stop"@.len());
    assert("content_block_stop"@.len() != "error"@.len());
    assert("message_delta"@.len() != "message_stop"@.len());
    assert("message_delta"@.len() != "error"@.len());
    assert("message_stop"@.len() != "error"@.len());
    assert("text"@.len() != "tool_use"@.len());
    assert("text_delta"@.len() != "input_json_delta"@.len());
}

/// Whether a payload is the start of a text block, or an addition of text to a block.
pub open spec fn brings_text(payload: JsonView, block: JsonView) -> bool {
    ||| says(payload, "type"@, "content_block_start"@) && has(payload, "content_block"@, block)
        && says(block, "type"@, "text"@)
    ||| says(payload, "type"@, "content_block_delta"@) && has(payload, "delta"@, block) && says(
        block,
        "type"@,
        "text_delta"@,
    )
}

/// Text that comes with the start of a text block, or as an addition to a block, is told,
/// unless it is empty.
pub proof fn law_text_events(payload: JsonView, block: JsonView, text: Seq<char>)
    requires
        brings_text(payload, block),
    ensures
        says(block, "text"@, text) && text.len() > 0 ==> payload_event(payload) == Some(
            StreamEventView::TextDelta(text),
        ),
        says(block, "text"@, text) && text.len() == 0 ==> payload_event(payload) is None,
        silent_on(block, "text"@) ==> payload_event(payload) is None,
{
    lemma_event_types();
    if silent_on(block, "text"@) {
        lemma_silent(block, "text"@);
    }
}

/// The start of a tool-use block tells the block's place, its identifier, its name and its
/// input, as far as it has them.
pub proof fn law_tool_use_start_events(
    payload: JsonView,
    block: JsonView,
    index: usize,
    id: Seq<char>,
    name: Seq<char>,
)
    requires
        says(payload, "type"@, "content_block_start"@),
        has(payload, "content_block"@, block),
        says(block, "type"@, "tool_use"@),
        speaks_of(payload, index),
        says_or_empty(block, "id"@, id),
        says_or_empty(block, "name"@, name),
    ensures
        lacks(block, "input"@) ==> payload_event(payload) == Some(
            StreamEventView::ToolUseStart { index, id, name, input: None },
        ),
        forall|input: JsonView| #[trigger]
            has(block, "input"@, input) ==> payload_event(payload) == Some(
                StreamEventView::ToolUseStart { index, id, name, input: Some(input) },
            ),
{
    lemma_event_types();
    lemma_index(payload, index);
    if silent_on(block, "id"@) {
        lemma_silent(block, "id"@);
        assert(id.len() == 0 ==> id =~= Seq::empty());
    }
    if silent_on(block, "name"@) {
        lemma_silent(block, "name"@);
        assert(name.len() == 0 ==> name =~= Seq::empty());
    }
    if lacks(block, "input"@) {
        lemma_lacks(block, "input"@);
    }
}

/// A part of a call's input is told with the place of its block, unless it is empty.
pub proof fn law_input_events(
    payload: JsonView,
    delta: JsonView,
    index: usize,
    partial_json: Seq<char>,
)
    requires
        says(payload, "type"@, "content_block_delta"@),
        has(payload, "delta"@, delta),
        says(delta, "type"@, "input_json_delta"@),
        speaks_of(payload, index),
    ensures
        says(delta, "partial_json"@, partial_json) && partial_json.len() > 0 ==> payload_event(
            payload,
        ) == Some(StreamEventView::ToolUseInputDelta { index, partial_json }),
        says(delta, "partial_json"@, partial_json) && partial_json.len() == 0 ==> payload_event(
            payload,
        ) is None,
        silent_on(delta, "partial_json"@) ==> payload_event(payload) is None,
{
    lemma_event_types();
    lemma_index(payload, index);
    if silent_on(delta, "partial_json"@) {
        lemma_silent(delta, "partial_json"@);
    }
}

/// The end of a block tells its place, and the end of the message tells itself.
pub proof fn law_stop_events(payload: JsonView, index: usize)
    requires
        speaks_of(payload, index),
    ensures
        says(payload, "type"@, "content_block_stop"@) ==> payload_event(payload) == Some(
            StreamEventView::ToolUseStop { index },
        ),
        says(payload, "type"@, "message_stop"@) ==> payload_event(payload) == Some(
            StreamEventView::MessageStop,
        ),
{
    lemma_event_types();
    lemma_index(payload, index);
}

/// An addition to the message tells that a content filter blocked it exactly where this is the
/// reason that it gives for stopping.
pub proof fn law_filter_events(payload: JsonView)
    requires
        says(payload, "type"@, "message_delta"@),
    ensures
        payload_event(payload) == (if exists|delta: JsonView|
            #![trigger has(payload, "delta"@, delta)]
            has(payload, "delta"@, delta) && says(delta, "stop_reason"@, "content_filter"@) {
            Some(StreamEventView::ContentFiltered)
        } else {
            None
        }),
{
    lemma_event_types();
    if let JsonView::Object(fields) = payload {
        if fields.contains_key("delta"@) {
            assert(has(payload, "delta"@, fields["delta"@]));
        }
    }
}

/// An error tells its kind and its message, and words of its own where it lacks them.
pub proof fn law_error_events(payload: JsonView, error: JsonView)
    requires
        says(payload, "type"@, "error"@),
    ensures
        payload_event(payload) matches Some(StreamEventView::Error { kind, message }) && {
            &&& has(payload, "error"@, error) ==> {
                &&& says(error, "type"@, kind) || silent_on(error, "type"@) && kind == "error"@
                &&& says(error, "message"@, message) || silent_on(error, "message"@) && message
                    == "Unknown Anthropic streaming error."@
            }
            &&& lacks(payload, "error"@) ==> kind == "error"@ && message
                == "Unknown Anthropic streaming error."@
        },
{
    lemma_event_types();
    if lacks(payload, "error"@) {
        lemma_lacks(payload, "error"@);
    }
}

/// A payload of no known type tells nothing, nor does one without its block or its addition,
/// or with one of no known type.
pub proof fn law_other_events(payload: JsonView, block: JsonView, kind: Seq<char>)
    ensures
        silent_on(payload, "type"@) ==> payload_event(payload) is None,
        says(payload, "type"@, kind) && kind != "content_block_start"@ && kind
            != "content_block_delta"@ && kind != "content_block_stop"@ && kind != "message_delta"@
            && kind != "message_stop"@ && kind != "error"@ ==> payload_event(payload) is None,
        says(payload, "type"@, "content_block_start"@) && lacks(payload, "content_block"@)
            ==> payload_event(payload) is None,
        says(payload, "type"@, "content_block_delta"@) && lacks(payload, "delta"@)
            ==> payload_event(payload) is None,
        says(payload, "type"@, "content_block_start"@) && has(payload, "content_block"@, block) && (
        silent_on(block, "type"@) || says(block, "type"@, kind) && kind != "text"@ && kind
            != "tool_use"@) ==> payload_event(payload) is None,
        says(payload, "type"@, "content_block_delta"@) && has(payload, "delta"@, block) && (
        silent_on(block, "type"@) || says(block, "type"@, kind) && kind != "text_delta"@ && kind
            != "input_json_delta"@) ==> payload_event(payload) is None,
{
    lemma_event_types();
    if silent_on(payload, "type"@) {
        lemma_silent(payload, "type"@);
    }
    if silent_on(block, "type"@) {
        lemma_silent(block, "type"@);
    }
    if lacks(payload, "content_block"@) {
        lemma_lacks(payload, "content_block"@);
    }
    if lacks(payload, "delta"@) {
        lemma_lacks(payload, "delta"@);
    }
}

} // verus!
