use local_agent::anthropic::{messages_endpoint_url, messages_head};
use local_agent::openai::chat_completions_head;
use local_agent::provider::{
    is_anthropic_messages_endpoint, is_messages_url, local_provider_kind, LocalProviderKind, UrlParts,
};

fn pair(name: &str, value: &str) -> (String, String) {
    (name.to_string(), value.to_string())
}

#[test]
fn provider_by_the_end_of_the_address() {
    assert!(is_anthropic_messages_endpoint("http://localhost:1234/v1/messages"));
    assert!(is_anthropic_messages_endpoint("http://localhost:1234/messages///"));
    assert!(is_anthropic_messages_endpoint("not a url/messages"));
    assert!(!is_anthropic_messages_endpoint("http://localhost:11434/v1"));
    assert!(!is_anthropic_messages_endpoint("http://localhost/messages/v2"));
    assert!(!is_anthropic_messages_endpoint(""));
    assert!(!is_anthropic_messages_endpoint("///"));
}

#[test]
fn provider_by_the_host() {
    assert!(is_anthropic_messages_endpoint("https://api.anthropic.com"));
    assert!(is_anthropic_messages_endpoint("https://API.Anthropic.COM/v1/"));
    assert!(!is_anthropic_messages_endpoint("https://api.anthropic.com.example.org/v1"));
    assert!(!is_anthropic_messages_endpoint("api.anthropic.com"));
}

#[test]
fn provider_by_the_path() {
    assert!(is_anthropic_messages_endpoint("http://localhost/v1/messages?beta=true"));
    assert!(is_anthropic_messages_endpoint("http://localhost/messages#top"));
    assert!(!is_anthropic_messages_endpoint("http://localhost/?next=/messages&x"));
}

#[test]
fn provider_given_the_parts() {
    let parts = |host: Option<&str>, path: &str| {
        Some(UrlParts { host: host.map(str::to_string), path: path.to_string() })
    };
    assert!(is_messages_url("x", &parts(Some("api.ANTHROPIC.com"), "/")));
    assert!(is_messages_url("x", &parts(None, "/v1/messages")));
    assert!(!is_messages_url("x", &parts(Some("localhost"), "/v1")));
    assert!(!is_messages_url("x", &None));
    assert!(is_messages_url("x/messages", &None));
}

#[test]
fn provider_kinds() {
    assert_eq!(
        local_provider_kind("http://localhost:11434/v1"),
        LocalProviderKind::OpenAICompatible
    );
    assert_eq!(
        local_provider_kind("https://api.anthropic.com"),
        LocalProviderKind::AnthropicMessages
    );
}

#[test]
fn messages_address_is_completed_once() {
    assert_eq!(messages_endpoint_url("https://api.anthropic.com"), "https://api.anthropic.com/v1/messages");
    assert_eq!(messages_endpoint_url("http://h/v1/"), "http://h/v1/messages");
    assert_eq!(messages_endpoint_url("http://h/v1/messages/"), "http://h/v1/messages");
    assert_eq!(messages_endpoint_url("http://h/messages"), "http://h/messages");
    assert_eq!(messages_endpoint_url(""), "/v1/messages");
    let url = messages_endpoint_url("http://h");
    assert_eq!(messages_endpoint_url(&url), url);
    assert_eq!(local_provider_kind(&url), LocalProviderKind::AnthropicMessages);
}

#[test]
fn end_slash_changes_nothing() {
    for address in ["http://h", "http://h/v1", "http://h/messages", "https://api.anthropic.com"] {
        let slashed = format!("{address}/");
        assert_eq!(local_provider_kind(&slashed), local_provider_kind(address));
        assert_eq!(messages_endpoint_url(&slashed), messages_endpoint_url(address));
        assert_eq!(chat_completions_head(&slashed, None), chat_completions_head(address, None));
    }
}

#[test]
fn chat_head_without_a_key() {
    let head = chat_completions_head("http://localhost:11434/v1//", None);
    assert_eq!(head.url, "http://localhost:11434/v1/chat/completions");
    assert_eq!(head.headers, vec![pair("content-type", "application/json")]);
}

#[test]
fn chat_head_with_a_key() {
    let head = chat_completions_head("http://h", Some("k"));
    assert_eq!(
        head.headers,
        vec![pair("content-type", "application/json"), pair("authorization", "Bearer k")]
    );
}

#[test]
fn messages_head_without_a_key() {
    let head = messages_head("http://h/v1", None);
    assert_eq!(head.url, "http://h/v1/messages");
    assert_eq!(
        head.headers,
        vec![pair("content-type", "application/json"), pair("anthropic-version", "2023-06-01")]
    );
}

#[test]
fn messages_head_with_a_key() {
    let head = messages_head("http://h/v1", Some("k"));
    assert_eq!(
        head.headers,
        vec![
            pair("content-type", "application/json"),
            pair("anthropic-version", "2023-06-01"),
            pair("x-api-key", "k"),
            pair("authorization", "Bearer k"),
        ]
    );
}
