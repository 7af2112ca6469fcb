//! The response to a request: what it asks the provider, and the events that it yields.
use vstd::prelude::*;
use vstd::std_specs::btree::increasing_seq;
use vstd::std_specs::cmp::OrdSpec;
use vstd::std_specs::iter::IteratorSpec;

use crate::anthropic::{messages_head, messages_head_view, MessagesRequest, MessagesRequestView};
use crate::api::{
    ClientAction, ClientActionView, FinishReason, FinishReasonView, LocalAgentConfig,
    LocalAgentConfigView, MessageKind, MessageKindView, RequestParams, RequestParamsView,
    ResponseEvent, ResponseEventView, StreamFinished, StreamFinishedView, TaskMessage,
    TaskMessageView, TaskView,
};
use crate::calls::{
    call_message, decode_request, decoded_view, take_call, to_decode,
    to_tool_call_message_with_ids, CallIds, CallIdsView, DecodeRequest, Decoded, PendingCalls,
    PendingToolCallView, ToolArgs,
};
use crate::error::{result_view, AIApiError, AIApiErrorView};
use crate::history::{
    anthropic_messages, anthropic_messages_from_chat_messages, conversation,
    extract_chat_messages_with_ids, fresh_for, fresh_ids, task_messages,
};
use crate::http::{HttpHead, HttpHeadView};
use crate::ids::{is_uuid_v4, new_uuid};
use crate::openai::{
    chat_completions_head, completions_head, ChatRequest, ChatRequestView, ToolDefinitionView,
};
use crate::provider::{local_provider_kind, provider_kind, LocalProviderKind};
use crate::stream::{Answer, AnswerView};
use crate::text::{blank, is_blank};
use crate::tools::{
    anthropic_definition, anthropic_tool_definitions, local_tool_definitions, tool_definitions,
};

verus! {

/// The most tokens that an Anthropic endpoint may answer with.
pub const ANTHROPIC_MAX_TOKENS: u32 = 4096;

/// What a provider is sent.
#[derive(Debug)]
pub enum ProviderRequest {
    OpenAI { head: HttpHead, body: ChatRequest },
    Anthropic { head: HttpHead, body: MessagesRequest },
}

/// What a provider is sent.
pub enum ProviderRequestView {
    OpenAI { head: HttpHeadView, body: ChatRequestView },
    Anthropic { head: HttpHeadView, body: MessagesRequestView },
}

impl DeepView for ProviderRequest {
    type V = ProviderRequestView;

    open spec fn deep_view(&self) -> ProviderRequestView {
        match *self {
            ProviderRequest::OpenAI { head, body } => ProviderRequestView::OpenAI {
                head: head.deep_view(),
                body: body.deep_view(),
            },
            ProviderRequest::Anthropic { head, body } => ProviderRequestView::Anthropic {
                head: head.deep_view(),
                body: body.deep_view(),
            },
        }
    }
}

/// A response at its start: its first event, the identifiers that its messages carry, and
/// what the provider is sent.
#[derive(Debug)]
pub struct ResponseStart {
    pub init: ResponseEvent,
    pub request_id: String,
    pub task_id: String,
    pub request: ProviderRequest,
}

/// A response at its start.
pub struct ResponseStartView {
    pub init: ResponseEventView,
    pub request_id: Seq<char>,
    pub task_id: Seq<char>,
    pub request: ProviderRequestView,
}

impl DeepView for ResponseStart {
    type V = ResponseStartView;

    open spec fn deep_view(&self) -> ResponseStartView {
        ResponseStartView {
            init: self.init.deep_view(),
            request_id: self.request_id@,
            task_id: self.task_id@,
            request: self.request.deep_view(),
        }
    }
}

/// The event with which a response begins.
pub open spec fn init_event(request_id: Seq<char>) -> ResponseEventView {
    ResponseEventView::Init {
        request_id,
        conversation_id: Seq::empty(),
        run_id: Seq::empty(),
    }
}

/// The message in which the agent says something.
pub open spec fn output_message(
    task_id: Seq<char>,
    request_id: Seq<char>,
    text: Seq<char>,
    id: Seq<char>,
) -> TaskMessageView {
    TaskMessageView {
        id: "local-agent-output-"@ + id,
        task_id,
        request_id,
        server_message_data: Seq::empty(),
        message: Some(MessageKindView::AgentOutput(text)),
    }
}

/// The event that adds messages to a task.
pub open spec fn messages_event(
    task_id: Seq<char>,
    messages: Seq<TaskMessageView>,
) -> ResponseEventView {
    ResponseEventView::ClientActions(
        seq![ClientActionView::AddMessagesToTask { task_id, messages }],
    )
}

/// The event with which a response is complete.
pub open spec fn done_event() -> ResponseEventView {
    ResponseEventView::Finished(
        StreamFinishedView { reason: FinishReasonView::Done, should_refresh_model_config: false },
    )
}

/// The task that a request is for: its first one.
pub open spec fn request_task(tasks: Seq<TaskView>) -> Seq<char> {
    if tasks.len() > 0 {
        tasks.first().id
    } else {
        "root-task"@
    }
}

/// What the provider of a request is sent, where a call without an identifier gets the one
/// at its message's place in `fresh`.
pub open spec fn provider_request(
    config: LocalAgentConfigView,
    params: RequestParamsView,
    fresh: Seq<Seq<char>>,
) -> ProviderRequestView {
    let messages = conversation(params, request_task(params.tasks), fresh);
    match provider_kind(config.endpoint_url) {
        LocalProviderKind::OpenAICompatible => ProviderRequestView::OpenAI {
            head: completions_head(config.endpoint_url, config.api_key),
            body: ChatRequestView {
                model: config.model_name,
                messages,
                tools: tool_definitions(),
                stream: true,
            },
        },
        LocalProviderKind::AnthropicMessages => ProviderRequestView::Anthropic {
            head: messages_head_view(config.endpoint_url, config.api_key),
            body: MessagesRequestView {
                model: config.model_name,
                messages: anthropic_messages(messages),
                tools: tool_definitions().map_values(
                    |tool: ToolDefinitionView| anthropic_definition(tool),
                ),
                max_tokens: ANTHROPIC_MAX_TOKENS,
                stream: true,
            },
        },
    }
}

/// The response to a request at its start.
pub open spec fn started(
    config: LocalAgentConfigView,
    params: RequestParamsView,
    request_id: Seq<char>,
    fresh: Seq<Seq<char>>,
) -> ResponseStartView {
    ResponseStartView {
        init: init_event(request_id),
        request_id,
        task_id: request_task(params.tasks),
        request: provider_request(config, params, fresh),
    }
}

/// The event with which a response begins.
pub fn stream_init_event(request_id: &str) -> (r: ResponseEvent)
    ensures
        r.deep_view() == init_event(request_id@),
{
    ResponseEvent::Init {
        request_id: request_id.to_string(),
        conversation_id: String::new(),
        run_id: String::new(),
    }
}

/// The message in which the agent says something, with this identifier.
pub fn agent_output_message_with_id(task_id: &str, request_id: &str, text: String, id: &str) -> (r:
    TaskMessage)
    ensures
        r.deep_view() == output_message(task_id@, request_id@, text@, id@),
{
    let mut message_id = "local-agent-output-".to_string();
    message_id.append(id);
    TaskMessage {
        id: message_id,
        task_id: task_id.to_string(),
        request_id: request_id.to_string(),
        server_message_data: String::new(),
        message: Some(MessageKind::AgentOutput(text)),
    }
}

/// The message in which the agent says something, with a random identifier.
pub fn agent_output_message(task_id: &str, request_id: &str, text: String) -> (r: TaskMessage)
    ensures
        exists|id: Seq<char>|
            is_uuid_v4(id) && r.deep_view() == #[trigger] output_message(
                task_id@,
                request_id@,
                text@,
                id,
            ),
{
    let id = new_uuid();
    agent_output_message_with_id(task_id, request_id, text, id.as_str())
}

/// The event that adds messages to a task.
pub fn add_messages_event(task_id: &str, messages: Vec<TaskMessage>) -> (r: ResponseEvent)
    ensures
        r.deep_view() == messages_event(task_id@, messages.deep_view()),
{
    let mut actions: Vec<ClientAction> = Vec::new();
    actions.push(ClientAction::AddMessagesToTask { task_id: task_id.to_string(), messages });
    let event = ResponseEvent::ClientActions(actions);
    assert(actions.deep_view() =~= seq![
        ClientActionView::AddMessagesToTask {
            task_id: task_id@,
            messages: messages.deep_view(),
        },
    ]);
    event
}

/// The event with which a response is complete.
pub fn stream_finished_done_event() -> (r: ResponseEvent)
    ensures
        r.deep_view() == done_event(),
{
    ResponseEvent::Finished(
        StreamFinished { reason: FinishReason::Done, should_refresh_model_config: false },
    )
}

fn optional_str(text: &Option<String>) -> (r: Option<&str>)
    ensures
        r.deep_view() == text.deep_view(),
{
    match text {
        Some(text) => Some(text.as_str()),
        None => None,
    }
}

fn task_of_request(params: &RequestParams) -> (r: String)
    ensures
        r@ == request_task(params.deep_view().tasks),
{
    if params.tasks.len() > 0 {
        assert(params.deep_view().tasks.first() == params.tasks@[0].deep_view());
        params.tasks[0].id.clone()
    } else {
        "root-task".to_string()
    }
}

/// The response to a request at its start, with these identifiers: that of the request,
/// and for each message of its task one for a call that has none.
pub fn local_agent_stream_with_ids(
    config: &LocalAgentConfig,
    params: &RequestParams,
    request_id: String,
    fresh: &Vec<String>,
) -> (r: ResponseStart)
    requires
        fresh@.len() == task_messages(
            params.deep_view().tasks,
            request_task(params.deep_view().tasks),
        ).len(),
    ensures
        r.deep_view() == started(
            config.deep_view(),
            params.deep_view(),
            request_id@,
            fresh.deep_view(),
        ),
{
    let task_id = task_of_request(params);
    let messages = extract_chat_messages_with_ids(params, task_id.as_str(), fresh);
    let endpoint_url = config.endpoint_url.as_str();
    let api_key = optional_str(&config.api_key);
    let request = match local_provider_kind(endpoint_url) {
        LocalProviderKind::OpenAICompatible => ProviderRequest::OpenAI {
            head: chat_completions_head(endpoint_url, api_key),
            body: ChatRequest {
                model: config.model_name.clone(),
                messages,
                tools: local_tool_definitions(),
                stream: true,
            },
        },
        LocalProviderKind::AnthropicMessages => ProviderRequest::Anthropic {
            head: messages_head(endpoint_url, api_key),
            body: MessagesRequest {
                model: config.model_name.clone(),
                messages: anthropic_messages_from_chat_messages(&messages),
                tools: anthropic_tool_definitions(),
                max_tokens: ANTHROPIC_MAX_TOKENS,
                stream: true,
            },
        },
    };
    ResponseStart { init: stream_init_event(request_id.as_str()), request_id, task_id, request }
}

/// The response to a request at its start. The request gets a random identifier, and so
/// does a call that has none.
pub fn local_agent_stream(config: &LocalAgentConfig, params: &RequestParams) -> (r: ResponseStart)
    ensures
        exists|request_id: Seq<char>, fresh: Seq<Seq<char>>|
            is_uuid_v4(request_id) && fresh_for(
                task_messages(params.deep_view().tasks, request_task(params.deep_view().tasks)),
                fresh,
            ) && r.deep_view() == #[trigger] started(
                config.deep_view(),
                params.deep_view(),
                request_id,
                fresh,
            ),
{
    let request_id = new_uuid();
    let task_id = task_of_request(params);
    let fresh = fresh_ids(params, task_id.as_str());
    local_agent_stream_with_ids(config, params, request_id, &fresh)
}

/// Whether `keys` are the keys of a set in ascending order.
pub open spec fn ascends(keys: Seq<usize>, set: Set<usize>) -> bool {
    &&& forall|i: int, j: int| 0 <= i < j < keys.len() ==> keys[i] < keys[j]
    &&& forall|key: usize| #[trigger] set.contains(key) <==> keys.contains(key)
}

/// The places of the calls in ascending order.
pub open spec fn call_places(calls: PendingCalls) -> Seq<usize> {
    choose|keys: Seq<usize>| ascends(keys, calls.dom())
}

/// The calls in the order of their places.
pub open spec fn in_order(calls: PendingCalls) -> Seq<PendingToolCallView> {
    call_places(calls).map_values(|place: usize| calls[place])
}

/// Keys stand in one ascending order only.
pub proof fn law_one_order(a: Seq<usize>, b: Seq<usize>, set: Set<usize>)
    requires
        ascends(a, set),
        ascends(b, set),
    ensures
        a == b,
    decreases a.len(),
{
    if a.len() == 0 {
        if b.len() > 0 {
            assert(b.contains(b[0]));
            assert(set.contains(b[0]));
        }
        assert(a =~= b);
    } else {
        assert(a.contains(a.last()));
        assert(set.contains(a.last()));
        let i = choose|i: int| 0 <= i < b.len() && b[i] == a.last();
        assert(b.contains(b.last()));
        assert(set.contains(b.last()));
        let j = choose|j: int| 0 <= j < a.len() && a[j] == b.last();
        assert(a.last() == b.last());
        let smaller = set.remove(a.last());
        assert forall|key: usize| #[trigger]
            smaller.contains(key) <==> a.drop_last().contains(key) by {
            lemma_without_last(a, key);
        }
        assert forall|key: usize| #[trigger]
            smaller.contains(key) <==> b.drop_last().contains(key) by {
            lemma_without_last(b, key);
        }
        law_one_order(a.drop_last(), b.drop_last(), smaller);
        assert(a =~= a.drop_last().push(a.last()));
        assert(b =~= b.drop_last().push(b.last()));
    }
}

/// What is left of ascending keys without the last one.
proof fn lemma_without_last(keys: Seq<usize>, key: usize)
    requires
        keys.len() > 0,
        forall|i: int, j: int| 0 <= i < j < keys.len() ==> keys[i] < keys[j],
    ensures
        keys.drop_last().contains(key) <==> keys.contains(key) && key != keys.last(),
{
    if keys.contains(key) && key != keys.last() {
        let i = choose|i: int| 0 <= i < keys.len() && keys[i] == key;
        assert(keys.drop_last()[i] == key);
    }
    if keys.drop_last().contains(key) {
        let i = choose|i: int| 0 <= i < keys.len() - 1 && keys.drop_last()[i] == key;
        assert(keys[i] == key);
    }
}

impl Answer {
    fn places(&self) -> (r: Vec<usize>)
        ensures
            r@ == call_places(self.deep_view().calls),
            ascends(r@, self.deep_view().calls.dom()),
    {
        broadcast use vstd::laws_cmp::group_laws_cmp;

        let mut keys: Vec<usize> = Vec::new();
        for key in it: self.pending_tool_calls.keys()
            invariant
                self.pending_tool_calls.keys().remaining() == it.seq(),
                keys@ == it.seq().take(it.index()).unref(),
        {
            keys.push(*key);
        }
        let ghost seq = self.pending_tool_calls.keys().remaining();
        let ghost dom = self.deep_view().calls.dom();
        proof {
            assert(keys@ =~= seq.unref());
            assert(dom =~= self.pending_tool_calls@.dom());
            assert(vstd::laws_cmp::obeys_cmp::<&usize>());
            assert(increasing_seq(seq));
            assert forall|i: int, j: int| 0 <= i < j < keys@.len() implies keys@[i] < keys@[j] by {
                assert(OrdSpec::cmp_spec(&seq[i], &seq[j]) is Less);
            }
            assert forall|key: usize| #[trigger] dom.contains(key) <==> keys@.contains(key) by {
                assert(seq.unref().to_set().contains(key) <==> keys@.contains(key));
            }
            assert(ascends(keys@, dom));
            law_one_order(keys@, call_places(self.deep_view().calls), dom);
        }
        keys
    }
}

/// What came of decoding the arguments of each call.
pub open spec fn decodings(decoded: Seq<Option<Result<ToolArgs, String>>>) -> Seq<
    Option<Decoded>,
> {
    decoded.map_values(|one: Option<Result<ToolArgs, String>>| decoded_view(one))
}

/// The random parts of the identifiers that the end of a response needs: that of the
/// agent's text, and those of each call.
#[derive(Debug)]
pub struct OutputIds {
    pub text: String,
    pub calls: Vec<CallIds>,
}

/// The random parts of the identifiers that the end of a response needs.
pub struct OutputIdsView {
    pub text: Seq<char>,
    pub calls: Seq<CallIdsView>,
}

impl DeepView for OutputIds {
    type V = OutputIdsView;

    open spec fn deep_view(&self) -> OutputIdsView {
        OutputIdsView { text: self.text@, calls: self.calls.deep_view() }
    }
}

impl OutputIdsView {
    /// Whether all are random UUIDs, and there are as many as there are calls.
    pub open spec fn random_for(self, calls: Seq<PendingToolCallView>) -> bool {
        &&& is_uuid_v4(self.text)
        &&& self.calls.len() == calls.len()
        &&& forall|i: int| 0 <= i < self.calls.len() ==> (#[trigger] self.calls[i]).random()
    }
}

/// The messages that calls become, or the error of the first call that becomes none.
pub open spec fn call_messages(
    calls: Seq<PendingToolCallView>,
    decoded: Seq<Option<Decoded>>,
    task_id: Seq<char>,
    request_id: Seq<char>,
    ids: Seq<CallIdsView>,
) -> Result<Seq<TaskMessageView>, AIApiErrorView>
    decreases calls.len(),
{
    if calls.len() == 0 {
        Ok(Seq::empty())
    } else {
        let last = calls.len() - 1;
        match call_messages(calls.drop_last(), decoded, task_id, request_id, ids) {
            Ok(before) => match call_message(
                calls[last],
                decoded[last],
                task_id,
                request_id,
                ids[last],
            ) {
                Ok(Some(message)) => Ok(before.push(message)),
                Ok(None) => Ok(before),
                Err(error) => Err(error),
            },
            Err(error) => Err(error),
        }
    }
}

/// The message in which the agent says an answer's text, if there is any.
pub open spec fn text_messages(
    text: Seq<char>,
    task_id: Seq<char>,
    request_id: Seq<char>,
    id: Seq<char>,
) -> Seq<TaskMessageView> {
    if is_blank(text) {
        Seq::empty()
    } else {
        seq![output_message(task_id, request_id, text, id)]
    }
}

/// The events that end a response: its messages, if there are any, and that it is
/// complete. An error where a call's arguments are not right.
pub open spec fn final_events(
    answer: AnswerView,
    decoded: Seq<Option<Decoded>>,
    task_id: Seq<char>,
    request_id: Seq<char>,
    ids: OutputIdsView,
) -> Result<Seq<ResponseEventView>, AIApiErrorView> {
    match call_messages(in_order(answer.calls), decoded, task_id, request_id, ids.calls) {
        Ok(calls) => {
            let messages = text_messages(answer.text, task_id, request_id, ids.text) + calls;
            if messages.len() > 0 {
                Ok(seq![messages_event(task_id, messages), done_event()])
            } else {
                Ok(seq![done_event()])
            }
        },
        Err(error) => Err(error),
    }
}

impl Answer {
    /// What is to be decoded of each call before the response can end, in the order of the
    /// calls.
    pub fn decode_requests(&self) -> (r: Vec<Option<DecodeRequest>>)
        ensures
            r.deep_view() == in_order(self.deep_view().calls).map_values(
                |call: PendingToolCallView| to_decode(call),
            ),
    {
        broadcast use vstd::laws_cmp::group_laws_cmp;

        let places = self.places();
        let ghost calls = self.deep_view().calls;
        let ghost all = in_order(calls).map_values(|call: PendingToolCallView| to_decode(call));
        let mut requests: Vec<Option<DecodeRequest>> = Vec::new();
        for place in it: places
            invariant
                it.seq() == places@,
                calls == self.deep_view().calls,
                places@ == call_places(calls),
                ascends(places@, calls.dom()),
                all == in_order(calls).map_values(|call: PendingToolCallView| to_decode(call)),
                requests.deep_view() == all.take(it.index()),
        {
            let ghost k = it.index();
            assert(place == places@[k]);
            assert(places@.contains(place));
            assert(calls.dom().contains(place));
            assert(self.pending_tool_calls@.contains_key(place));
            assert(all[k] == to_decode(calls[place]));
            let request = match self.pending_tool_calls.get(&place) {
                Some(call) => decode_request(call),
                None => None,
            };
            assert(request.deep_view() == all[k]);
            let ghost before = requests.deep_view();
            requests.push(request);
            assert(requests.deep_view() =~= before.push(all[k]));
            assert(all.take(k + 1) =~= all.take(k).push(all[k]));
        }
        requests
    }

    /// The events that end a response, with these identifiers.
    pub fn finish_with_ids(
        self,
        decoded: Vec<Option<Result<ToolArgs, String>>>,
        task_id: &str,
        request_id: &str,
        ids: &OutputIds,
    ) -> (r: Result<Vec<ResponseEvent>, AIApiError>)
        requires
            decoded@.len() == in_order(self.deep_view().calls).len(),
            ids.calls@.len() == in_order(self.deep_view().calls).len(),
        ensures
            result_view(r) == final_events(
                self.deep_view(),
                decodings(decoded@),
                task_id@,
                request_id@,
                ids.deep_view(),
            ),
    {
        let places = self.places();
        let ghost answer = self.deep_view();
        let ghost calls = in_order(answer.calls);
        let ghost views = decodings(decoded@);
        let ghost call_ids = ids.deep_view().calls;
        let ghost text = text_messages(answer.text, task_id@, request_id@, ids.text@);
        let Answer { full_text, mut pending_tool_calls } = self;
        let mut messages: Vec<TaskMessage> = Vec::new();
        if !blank(full_text.as_str()) {
            messages.push(
                agent_output_message_with_id(task_id, request_id, full_text, ids.text.as_str()),
            );
        }
        assert(messages.deep_view() =~= text);
        let ghost mut told: Seq<TaskMessageView> = Seq::empty();
        assert(calls.take(0) =~= Seq::empty());
        assert forall|j: int| 0 <= j < places@.len() implies #[trigger]
            pending_tool_calls@.contains_key(places@[j])
            && pending_tool_calls@[places@[j]].deep_view() == calls[j] by {
            assert(places@.contains(places@[j]));
            assert(answer.calls.dom().contains(places@[j]));
        }
        let mut i: usize = 0;
        for one in it: decoded
            invariant
                it.seq() == decoded@,
                i == it.index(),
                views == decodings(decoded@),
                answer == self.deep_view(),
                calls == in_order(answer.calls),
                call_ids == ids.deep_view().calls,
                ids.calls@.len() == calls.len(),
                decoded@.len() == calls.len(),
                places@ == call_places(answer.calls),
                ascends(places@, answer.calls.dom()),
                text == text_messages(answer.text, task_id@, request_id@, ids.text@),
                messages.deep_view() == text + told,
                call_messages(
                    calls.take(it.index()),
                    views,
                    task_id@,
                    request_id@,
                    call_ids,
                ) == Ok::<Seq<TaskMessageView>, AIApiErrorView>(told),
                forall|j: int|
                    it.index() <= j < places@.len() ==> #[trigger]
                    pending_tool_calls@.contains_key(places@[j])
                        && pending_tool_calls@[places@[j]].deep_view() == calls[j],
        {
            let ghost k = it.index();
            assert(calls.take(k + 1).drop_last() =~= calls.take(k));
            assert(pending_tool_calls@.contains_key(places@[k]));
            assert(views[k] == decoded_view(one));
            assert(i < places.len());
            let place = places[i];
            let call = take_call(&mut pending_tool_calls, place);
            assert forall|j: int| k + 1 <= j < places@.len() implies #[trigger]
                pending_tool_calls@.contains_key(places@[j])
                && pending_tool_calls@[places@[j]].deep_view() == calls[j] by {
                assert(places@[k] < places@[j]);
            }
            let id = &ids.calls[i];
            assert(call_ids[k] == id.deep_view());
            i = i + 1;
            match to_tool_call_message_with_ids(call, one, task_id, request_id, id) {
                Ok(Some(message)) => {
                    let ghost before = messages.deep_view();
                    messages.push(message);
                    assert(messages.deep_view() =~= before.push(message.deep_view()));
                    proof {
                        told = told.push(message.deep_view());
                    }
                    assert(messages.deep_view() =~= text + told);
                },
                Ok(None) => {},
                Err(error) => {
                    proof {
                        lemma_first_error(
                            calls,
                            views,
                            task_id@,
                            request_id@,
                            call_ids,
                            k + 1,
                        );
                    }
                    return Err(error);
                },
            }
        }
        assert(calls.take(decoded@.len() as int) =~= calls);
        let mut events: Vec<ResponseEvent> = Vec::new();
        if messages.len() > 0 {
            events.push(add_messages_event(task_id, messages));
        }
        events.push(stream_finished_done_event());
        proof {
            let all = text + told;
            if all.len() > 0 {
                assert(events.deep_view() =~= seq![messages_event(task_id@, all), done_event()]);
            } else {
                assert(events.deep_view() =~= seq![done_event()]);
            }
        }
        Ok(events)
    }

    /// The events that end a response, with random identifiers.
    pub fn finish(
        self,
        decoded: Vec<Option<Result<ToolArgs, String>>>,
        task_id: &str,
        request_id: &str,
    ) -> (r: Result<Vec<ResponseEvent>, AIApiError>)
        requires
            decoded@.len() == in_order(self.deep_view().calls).len(),
        ensures
            exists|ids: OutputIdsView|
                ids.random_for(in_order(self.deep_view().calls)) && result_view(r)
                    == #[trigger] final_events(
                    self.deep_view(),
                    decodings(decoded@),
                    task_id@,
                    request_id@,
                    ids,
                ),
    {
        let mut calls: Vec<CallIds> = Vec::new();
        for i in 0..decoded.len()
            invariant
                calls@.len() == i,
                forall|j: int| 0 <= j < i ==> (#[trigger] calls@[j]).deep_view().random(),
        {
            calls.push(CallIds::fresh());
        }
        let ids = OutputIds { text: new_uuid(), calls };
        self.finish_with_ids(decoded, task_id, request_id, &ids)
    }
}

/// An error among the first calls is the error of all.
proof fn lemma_first_error(
    calls: Seq<PendingToolCallView>,
    decoded: Seq<Option<Decoded>>,
    task_id: Seq<char>,
    request_id: Seq<char>,
    ids: Seq<CallIdsView>,
    n: int,
)
    requires
        0 <= n <= calls.len(),
        call_messages(calls.take(n), decoded, task_id, request_id, ids) is Err,
    ensures
        call_messages(calls, decoded, task_id, request_id, ids) == call_messages(
            calls.take(n),
            decoded,
            task_id,
            request_id,
            ids,
        ),
    decreases calls.len() - n,
{
    if n < calls.len() {
        assert(calls.take(n + 1).drop_last() =~= calls.take(n));
        lemma_first_error(calls, decoded, task_id, request_id, ids, n + 1);
    } else {
        assert(calls.take(n) =~= calls);
    }
}

} // verus!
