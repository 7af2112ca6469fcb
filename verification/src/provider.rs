//! Which protocol an endpoint speaks.
use vstd::prelude::*;

use crate::anthropic::{lemma_versioned_messages, messages_url};
use crate::openai::completions_url;
use crate::text::{ends_with, same_ascii_letters, trim_end_slashes, without_end_slashes};

verus! {

/// The protocol of an endpoint.
#[derive(Debug, Clone, Copy, PartialEq, Eq, Structural)]
pub enum LocalProviderKind {
    OpenAICompatible,
    AnthropicMessages,
}

/// The host of a URL, if it has one, and its path.
#[derive(Debug, Clone, PartialEq)]
pub struct UrlParts {
    pub host: Option<String>,
    pub path: String,
}

/// The host of a URL, if it has one, and its path.
pub struct UrlPartsView {
    pub host: Option<Seq<char>>,
    pub path: Seq<char>,
}

impl DeepView for UrlParts {
    type V = UrlPartsView;

    open spec fn deep_view(&self) -> UrlPartsView {
        UrlPartsView { host: self.host.deep_view(), path: self.path@ }
    }
}

/// The host and the path that the `url` crate finds in a text, where the text is an
/// absolute URL.
pub uninterp spec fn url_parts(text: Seq<char>) -> Option<UrlPartsView>;

/// `url::Url::parse`, with `host_str` and `path` of the URL that it finds: the two are
/// named `url_parts`, and so is whether there is a URL.
#[verifier::external_body]
fn parse_url(text: &str) -> (r: Option<UrlParts>)
    ensures
        r.deep_view() == url_parts(text@),
{
    url::Url::parse(text).ok().map(
        |url| UrlParts { host: url.host_str().map(str::to_string), path: url.path().to_string() },
    )
}

/// Whether an address without slashes at its end is one of a messages endpoint, given
/// the parts of the URL that it is: it ends in the endpoint's name, or its host is
/// Anthropic's, or its path ends in the endpoint's name.
pub open spec fn names_messages(base: Seq<char>, parts: Option<UrlPartsView>) -> bool {
    ||| "/messages"@.is_suffix_of(base)
    ||| parts matches Some(parts) && {
        ||| parts.host matches Some(host) && same_ascii_letters(host, "api.anthropic.com"@)
        ||| "/messages"@.is_suffix_of(parts.path)
    }
}

/// Whether an address is one of an Anthropic messages endpoint.
pub open spec fn is_messages_endpoint(endpoint_url: Seq<char>) -> bool {
    let base = without_end_slashes(endpoint_url);
    names_messages(base, url_parts(base))
}

/// The protocol that an endpoint speaks.
pub open spec fn provider_kind(endpoint_url: Seq<char>) -> LocalProviderKind {
    if is_messages_endpoint(endpoint_url) {
        LocalProviderKind::AnthropicMessages
    } else {
        LocalProviderKind::OpenAICompatible
    }
}

/// Whether an address without slashes at its end is one of a messages endpoint, given
/// the parts of the URL that it is.
pub fn is_messages_url(base: &str, parts: &Option<UrlParts>) -> (r: bool)
    ensures
        r == names_messages(base@, parts.deep_view()),
{
    proof {
        lemma_versioned_messages(base@);
    }
    if ends_with(base, "/v1/messages") || ends_with(base, "/messages") {
        return true;
    }
    match parts {
        Some(parts) => {
            let host_is_anthropic = match &parts.host {
                Some(host) => host.as_str().eq_ignore_ascii_case("api.anthropic.com"),
                None => false,
            };
            let path = parts.path.as_str();
            proof {
                lemma_versioned_messages(path@);
            }
            let path_is_messages = ends_with(path, "/v1/messages") || ends_with(path, "/messages");
            host_is_anthropic || path_is_messages
        },
        None => false,
    }
}

/// Whether an address is one of an Anthropic messages endpoint.
pub fn is_anthropic_messages_endpoint(endpoint_url: &str) -> (r: bool)
    ensures
        r == is_messages_endpoint(endpoint_url@),
{
    let base = trim_end_slashes(endpoint_url);
    let parts = parse_url(base);
    is_messages_url(base, &parts)
}

/// The protocol that an endpoint speaks.
pub fn local_provider_kind(endpoint_url: &str) -> (r: LocalProviderKind)
    ensures
        r == provider_kind(endpoint_url@),
{
    if is_anthropic_messages_endpoint(endpoint_url) {
        LocalProviderKind::AnthropicMessages
    } else {
        LocalProviderKind::OpenAICompatible
    }
}

/// What is left has no slash at its end, and a text without one stays.
proof fn lemma_without_end_slashes(s: Seq<char>)
    ensures
        ({
            let base = without_end_slashes(s);
            base.len() > 0 ==> base.last() != '/'
        }),
    decreases s.len(),
{
    if s.len() > 0 && s.last() == '/' {
        lemma_without_end_slashes(s.drop_last());
    }
}

proof fn lemma_messages_url_form(endpoint_url: Seq<char>)
    ensures
        "/messages"@.is_suffix_of(messages_url(endpoint_url)),
        without_end_slashes(messages_url(endpoint_url)) == messages_url(endpoint_url),
{
    let base = without_end_slashes(endpoint_url);
    let url = messages_url(endpoint_url);
    lemma_without_end_slashes(endpoint_url);
    lemma_versioned_messages(url);
    reveal_strlit("/messages");
    reveal_strlit("/v1/messages");
    if !"/messages"@.is_suffix_of(base) {
        if "/v1"@.is_suffix_of(base) {
            assert("/messages"@ =~= url.subrange(url.len() - 9, url.len() as int));
        } else {
            assert("/v1/messages"@ =~= url.subrange(url.len() - 12, url.len() as int));
        }
    }
    assert(url.len() > 0 ==> url.last() != '/');
}

/// The address of a messages endpoint ends in its name, is its own messages endpoint, and
/// is recognised as one.
pub proof fn law_messages_url(endpoint_url: Seq<char>)
    ensures
        "/messages"@.is_suffix_of(messages_url(endpoint_url)),
        messages_url(messages_url(endpoint_url)) == messages_url(endpoint_url),
        provider_kind(messages_url(endpoint_url)) == LocalProviderKind::AnthropicMessages,
{
    lemma_messages_url_form(endpoint_url);
}

/// A slash at the end of an address changes neither the protocol nor where a request goes.
pub proof fn law_end_slash(endpoint_url: Seq<char>)
    ensures
        provider_kind(endpoint_url.push('/')) == provider_kind(endpoint_url),
        messages_url(endpoint_url.push('/')) == messages_url(endpoint_url),
        completions_url(endpoint_url.push('/')) == completions_url(endpoint_url),
{
    assert(endpoint_url.push('/').drop_last() =~= endpoint_url);
}

} // verus!
