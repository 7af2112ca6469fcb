//! What holds of a request: where it goes, what proves who sends it, and what it says.
use vstd::prelude::*;

use crate::anthropic::{messages_head_view, messages_url};
use crate::api::{LocalAgentConfigView, RequestParamsView, ResponseEventView, TaskView};
use crate::error::{
    sse_failure, sse_payload, status_failure, AIApiErrorView, SseErrorView, SseEventView,
};
use crate::history::{anthropic_messages, conversation};
use crate::http::HttpHeadView;
use crate::openai::{completions_head, completions_url};
use crate::provider::{provider_kind, url_parts};
use crate::response::{provider_request, request_task, started, ProviderRequestView};
use crate::text::{ascii_lower, decimal, same_ascii_letters, without_end_slashes};
use crate::tool_laws::{law_decimal, spells};
use crate::tools::{anthropic_definition, tool_definitions};

verus! {

/// Whether a request has a header.
pub open spec fn sends(head: HttpHeadView, name: Seq<char>, value: Seq<char>) -> bool {
    head.headers.contains((name, value))
}

/// Whether a request has no header of a name.
pub open spec fn keeps_back(head: HttpHeadView, name: Seq<char>) -> bool {
    forall|i: int| 0 <= i < head.headers.len() ==> (#[trigger] head.headers[i]).0 != name
}

/// The head of what a provider is sent.
pub open spec fn head_of(request: ProviderRequestView) -> HttpHeadView {
    match request {
        ProviderRequestView::OpenAI { head, body: _ } => head,
        ProviderRequestView::Anthropic { head, body: _ } => head,
    }
}

proof fn lemma_header_names()
    ensures
        "content-type"@ != "authorization"@,
        "content-type"@ != "x-api-key"@,
        "anthropic-version"@ != "authorization"@,
        "anthropic-version"@ != "x-api-key"@,
{
    reveal_strlit("content-type");
    reveal_strlit("authorization");
    reveal_strlit("x-api-key");
    reveal_strlit("anthropic-version");
    assert("content-type"@.len() != "authorization"@.len());
    assert("content-type"@.len() != "x-api-key"@.len());
    assert("anthropic-version"@.len() != "authorization"@.len());
    assert("anthropic-version"@.len() != "x-api-key"@.len());
}

/// A request to a chat-completions endpoint carries the key of the configuration as a bearer
/// token, and none where the configuration has none.
pub proof fn law_chat_head(endpoint_url: Seq<char>, api_key: Option<Seq<char>>)
    ensures
        ({
            let head = completions_head(endpoint_url, api_key);
            &&& head.url == completions_url(endpoint_url)
            &&& sends(head, "content-type"@, "application/json"@)
            &&& api_key matches Some(key) ==> sends(head, "authorization"@, "Bearer "@ + key)
            &&& api_key is None ==> keeps_back(head, "authorization"@)
            &&& head.headers.len() == if api_key is Some {
                2int
            } else {
                1int
            }
        }),
{
    lemma_header_names();
    let head = completions_head(endpoint_url, api_key);
    assert(head.headers[0] == ("content-type"@, "application/json"@));
    if let Some(key) = api_key {
        assert(head.headers[1] == ("authorization"@, "Bearer "@ + key));
    }
}

/// A request to a messages endpoint says which version of the protocol it speaks. It carries
/// the key of the configuration as a bearer token and on its own, and none where the
/// configuration has none.
pub proof fn law_messages_head(endpoint_url: Seq<char>, api_key: Option<Seq<char>>)
    ensures
        ({
            let head = messages_head_view(endpoint_url, api_key);
            &&& head.url == messages_url(endpoint_url)
            &&& sends(head, "content-type"@, "application/json"@)
            &&& sends(head, "anthropic-version"@, "2023-06-01"@)
            &&& api_key matches Some(key) ==> sends(head, "authorization"@, "Bearer "@ + key)
                && sends(head, "x-api-key"@, key)
            &&& api_key is None ==> keeps_back(head, "authorization"@) && keeps_back(
                head,
                "x-api-key"@,
            )
            &&& head.headers.len() == if api_key is Some {
                4int
            } else {
                2int
            }
        }),
{
    lemma_header_names();
    let head = messages_head_view(endpoint_url, api_key);
    assert(head.headers[0] == ("content-type"@, "application/json"@));
    assert(head.headers[1] == ("anthropic-version"@, "2023-06-01"@));
    if let Some(key) = api_key {
        assert(head.headers[2] == ("x-api-key"@, key));
        assert(head.headers[3] == ("authorization"@, "Bearer "@ + key));
    }
}

/// The slashes at the end of an address are taken off, all of them, and nothing else.
pub proof fn law_end_slashes(s: Seq<char>)
    ensures
        ({
            let t = without_end_slashes(s);
            &&& t.len() <= s.len()
            &&& t == s.take(t.len() as int)
            &&& t.len() > 0 ==> t[t.len() - 1] != '/'
            &&& forall|i: int| t.len() <= i < s.len() ==> #[trigger] s[i] == '/'
        }),
    decreases s.len(),
{
    let t = without_end_slashes(s);
    if s.len() > 0 && s.last() == '/' {
        let rest = s.drop_last();
        law_end_slashes(rest);
        assert(rest.take(t.len() as int) =~= s.take(t.len() as int));
        assert forall|i: int| t.len() <= i < s.len() implies #[trigger] s[i] == '/' by {
            if i < rest.len() {
                assert(s[i] == rest[i]);
            }
        }
    } else {
        assert(s.take(s.len() as int) =~= s);
    }
}

/// Whether two characters are the same, or a capital ASCII letter and its small one.
pub open spec fn same_letter(a: char, b: char) -> bool {
    ||| a == b
    ||| 'A' <= a <= 'Z' && b as u32 == a as u32 + 32
    ||| 'A' <= b <= 'Z' && a as u32 == b as u32 + 32
}

/// Two host names are the same where they differ at most in which of their ASCII letters are
/// capitals.
pub proof fn law_same_host(a: Seq<char>, b: Seq<char>)
    ensures
        same_ascii_letters(a, b) <==> {
            &&& a.len() == b.len()
            &&& forall|i: int| 0 <= i < a.len() ==> same_letter(#[trigger] a[i], b[i])
        },
{
    let low = a.map_values(|c: char| ascii_lower(c));
    let other = b.map_values(|c: char| ascii_lower(c));
    if same_ascii_letters(a, b) {
        assert(low.len() == other.len());
        assert forall|i: int| 0 <= i < a.len() implies same_letter(#[trigger] a[i], b[i]) by {
            assert(low[i] == other[i]);
        }
    }
    if a.len() == b.len() && forall|i: int|
        0 <= i < a.len() ==> same_letter(#[trigger] a[i], b[i]) {
        assert forall|i: int| 0 <= i < a.len() implies low[i] == other[i] by {
            assert(same_letter(a[i], b[i]));
        }
        assert(low =~= other);
    }
}

/// Chat completions are asked for below the address of the configuration, whatever slashes it
/// ends in.
pub proof fn law_completions_address(endpoint_url: Seq<char>)
    ensures
        completions_url(endpoint_url) == without_end_slashes(endpoint_url) + "/chat/completions"@,
{
}

/// Messages are asked for at the address of the configuration where it names the endpoint, and
/// below it where it does not: it is completed by the version, unless it ends in that, and by
/// the name.
pub proof fn law_messages_address(endpoint_url: Seq<char>)
    ensures
        ({
            let base = without_end_slashes(endpoint_url);
            let url = messages_url(endpoint_url);
            &&& "/messages"@.is_suffix_of(base) ==> url == base
            &&& !"/messages"@.is_suffix_of(base) && "/v1"@.is_suffix_of(base) ==> url == base
                + "/messages"@
            &&& !"/messages"@.is_suffix_of(base) && !"/v1"@.is_suffix_of(base) ==> url == base
                + "/v1/messages"@
        }),
{
}

/// An endpoint speaks the messages protocol where its address names the messages endpoint, or
/// is a URL on Anthropic's host or with the endpoint's name at the end of its path; any other
/// speaks the chat-completions protocol.
pub proof fn law_protocol(endpoint_url: Seq<char>)
    ensures
        ({
            let base = without_end_slashes(endpoint_url);
            let named = "/messages"@.is_suffix_of(base);
            match url_parts(base) {
                Some(parts) => {
                    let hosted = match parts.host {
                        Some(host) => same_ascii_letters(host, "api.anthropic.com"@),
                        None => false,
                    };
                    provider_kind(endpoint_url) is AnthropicMessages <==> named || hosted
                        || "/messages"@.is_suffix_of(parts.path)
                },
                None => provider_kind(endpoint_url) is AnthropicMessages <==> named,
            }
        }),
{
}

/// What a provider is sent goes to the endpoint of the configuration, in the protocol that it
/// speaks, and carries the key of the configuration, if it has one: as a bearer token always,
/// and on its own where the protocol is that of messages.
pub proof fn law_request_head(
    config: LocalAgentConfigView,
    params: RequestParamsView,
    fresh: Seq<Seq<char>>,
)
    ensures
        ({
            let request = provider_request(config, params, fresh);
            let head = head_of(request);
            let speaks_messages = provider_kind(config.endpoint_url) is AnthropicMessages;
            &&& request is Anthropic <==> speaks_messages
            &&& head.url == if speaks_messages {
                messages_url(config.endpoint_url)
            } else {
                completions_url(config.endpoint_url)
            }
            &&& sends(head, "content-type"@, "application/json"@)
            &&& speaks_messages ==> sends(head, "anthropic-version"@, "2023-06-01"@)
            &&& match config.api_key {
                Some(key) => {
                    &&& sends(head, "authorization"@, "Bearer "@ + key)
                    &&& speaks_messages ==> sends(head, "x-api-key"@, key)
                },
                None => keeps_back(head, "authorization"@) && keeps_back(head, "x-api-key"@),
            }
        }),
{
    lemma_header_names();
    law_chat_head(config.endpoint_url, config.api_key);
    law_messages_head(config.endpoint_url, config.api_key);
}

/// What a provider is sent names the model of the configuration, holds the conversation of the
/// request's task, offers every tool, and asks for a stream.
pub proof fn law_request_body(
    config: LocalAgentConfigView,
    params: RequestParamsView,
    fresh: Seq<Seq<char>>,
)
    ensures
        ({
            let messages = conversation(params, request_task(params.tasks), fresh);
            let tools = tool_definitions();
            match provider_request(config, params, fresh) {
                ProviderRequestView::OpenAI { head: _, body } => {
                    &&& body.model == config.model_name
                    &&& body.messages == messages
                    &&& body.tools == tools
                    &&& body.stream
                },
                ProviderRequestView::Anthropic { head: _, body } => {
                    &&& body.model == config.model_name
                    &&& body.messages == anthropic_messages(messages)
                    &&& body.tools.len() == tools.len()
                    &&& forall|i: int|
                        0 <= i < tools.len() ==> #[trigger] body.tools[i] == anthropic_definition(
                            tools[i],
                        )
                    &&& body.max_tokens == 4096
                    &&& body.stream
                },
            }
        }),
{
}

/// A request is for its first task, or for the root task where it has none.
pub proof fn law_request_task(tasks: Seq<TaskView>)
    ensures
        tasks.len() > 0 ==> request_task(tasks) == tasks[0].id,
        tasks.len() == 0 ==> request_task(tasks) == "root-task"@,
{
}

/// A response starts with an event that names its request and nothing else, and is for the
/// task of its request.
pub proof fn law_started(
    config: LocalAgentConfigView,
    params: RequestParamsView,
    request_id: Seq<char>,
    fresh: Seq<Seq<char>>,
)
    ensures
        ({
            let start = started(config, params, request_id, fresh);
            &&& start.init == (ResponseEventView::Init {
                request_id,
                conversation_id: Seq::empty(),
                run_id: Seq::empty(),
            })
            &&& start.request_id == request_id
            &&& start.task_id == request_task(params.tasks)
            &&& start.request == provider_request(config, params, fresh)
        }),
{
}

/// A status that refuses more requests is a quota, one of a failing server an overload, and any
/// other is reported with its number.
pub proof fn law_status(status: u16)
    ensures
        status_failure(status) == (AIApiErrorView::QuotaLimit { user_display_message: None })
            <==> status == 429,
        status_failure(status) is ServerOverloaded <==> 500 <= status <= 599,
        status != 429 && !(500 <= status <= 599) ==> (status_failure(
            status,
        ) matches AIApiErrorView::ErrorStatus(code, words) && code == status && exists|
            numeral: Seq<char>,
        | #[trigger]
            spells(numeral, status as int) && words == "HTTP "@ + numeral),
{
    law_decimal(status as nat);
    assert(spells(decimal(status as nat), status as int));
}

/// A stream that fails for a cause of its own keeps it, one that fails for its status is
/// reported by that, and any other is reported in its words. Data is handed on as it is, and an
/// event without data is passed over.
pub proof fn law_stream_item(event: SseEventView, label: Seq<char>)
    ensures
        match event {
            SseEventView::Open => sse_payload(event, label) is None,
            SseEventView::Message(data) => if data.len() > 0 {
                sse_payload(event, label) == Some(Ok::<Seq<char>, AIApiErrorView>(data))
            } else {
                sse_payload(event, label) is None
            },
            SseEventView::Failed(error) => sse_payload(event, label) == Some(
                Err::<Seq<char>, AIApiErrorView>(
                    match error {
                        SseErrorView::Transport(cause) => AIApiErrorView::Transport(cause),
                        SseErrorView::InvalidStatusCode(status) => status_failure(status),
                        SseErrorView::Other(words) => AIApiErrorView::Other(label + words),
                    },
                ),
            ) && sse_payload(event, label) == Some(
                Err::<Seq<char>, AIApiErrorView>(sse_failure(error, label)),
            ),
        },
{
}

} // verus!
