//! The errors that a local agent stream ends with, and what a failed event stream
//! becomes.
use vstd::prelude::*;

use crate::text::{decimal, decimal_text};

verus! {

/// `reqwest::Error`, the outside type of a failed HTTP exchange. It is carried through.
#[verifier::external_type_specification]
#[verifier::external_body]
pub struct ExHttpError(reqwest::Error);

/// What an agent request fails with.
#[derive(Debug)]
pub enum AIApiError {
    /// The HTTP exchange failed.
    Transport(reqwest::Error),
    /// The provider refuses more requests for now.
    QuotaLimit { user_display_message: Option<String> },
    /// The provider is not able to serve the request.
    ServerOverloaded,
    /// The provider answered with another status.
    ErrorStatus(u16, String),
    /// Anything else, in words.
    Other(String),
}

/// What an `AIApiError` says.
pub enum AIApiErrorView {
    Transport(reqwest::Error),
    QuotaLimit { user_display_message: Option<Seq<char>> },
    ServerOverloaded,
    ErrorStatus(u16, Seq<char>),
    Other(Seq<char>),
}

impl DeepView for AIApiError {
    type V = AIApiErrorView;

    open spec fn deep_view(&self) -> AIApiErrorView {
        match *self {
            AIApiError::Transport(error) => AIApiErrorView::Transport(error),
            AIApiError::QuotaLimit { user_display_message } => AIApiErrorView::QuotaLimit {
                user_display_message: user_display_message.deep_view(),
            },
            AIApiError::ServerOverloaded => AIApiErrorView::ServerOverloaded,
            AIApiError::ErrorStatus(status, text) => AIApiErrorView::ErrorStatus(status, text@),
            AIApiError::Other(text) => AIApiErrorView::Other(text@),
        }
    }
}

/// How a server-sent event stream fails.
#[derive(Debug)]
pub enum SseError {
    /// The HTTP exchange failed.
    Transport(reqwest::Error),
    /// The answer has a status that no event stream has.
    InvalidStatusCode(u16),
    /// Anything else, in words.
    Other(String),
}

/// How a server-sent event stream fails.
pub enum SseErrorView {
    Transport(reqwest::Error),
    InvalidStatusCode(u16),
    Other(Seq<char>),
}

impl DeepView for SseError {
    type V = SseErrorView;

    open spec fn deep_view(&self) -> SseErrorView {
        match *self {
            SseError::Transport(error) => SseErrorView::Transport(error),
            SseError::InvalidStatusCode(status) => SseErrorView::InvalidStatusCode(status),
            SseError::Other(text) => SseErrorView::Other(text@),
        }
    }
}

/// What comes out of a server-sent event stream.
#[derive(Debug)]
pub enum SseEvent {
    /// The stream is open.
    Open,
    /// A message with this data.
    Message(String),
    /// The stream failed.
    Failed(SseError),
}

/// What comes out of a server-sent event stream.
pub enum SseEventView {
    Open,
    Message(Seq<char>),
    Failed(SseErrorView),
}

impl DeepView for SseEvent {
    type V = SseEventView;

    open spec fn deep_view(&self) -> SseEventView {
        match *self {
            SseEvent::Open => SseEventView::Open,
            SseEvent::Message(data) => SseEventView::Message(data@),
            SseEvent::Failed(error) => SseEventView::Failed(error.deep_view()),
        }
    }
}

/// The error for a status that no event stream has.
pub open spec fn status_failure(status: u16) -> AIApiErrorView {
    if status == 429 {
        AIApiErrorView::QuotaLimit { user_display_message: None }
    } else if 500 <= status < 600 {
        AIApiErrorView::ServerOverloaded
    } else {
        AIApiErrorView::ErrorStatus(status, "HTTP "@ + decimal(status as nat))
    }
}

/// The error for a failed event stream; `label` stands before the words of one that has
/// no error of its own.
pub open spec fn sse_failure(error: SseErrorView, label: Seq<char>) -> AIApiErrorView {
    match error {
        SseErrorView::Transport(cause) => AIApiErrorView::Transport(cause),
        SseErrorView::InvalidStatusCode(status) => status_failure(status),
        SseErrorView::Other(text) => AIApiErrorView::Other(label + text),
    }
}

/// What a stream's reader gets of an event: the data of a message that has some, or the
/// error. An event without data is passed over.
pub open spec fn sse_payload(event: SseEventView, label: Seq<char>) -> Option<
    Result<Seq<char>, AIApiErrorView>,
> {
    match event {
        SseEventView::Open => None,
        SseEventView::Message(data) => if data.len() == 0 {
            None
        } else {
            Some(Ok(data))
        },
        SseEventView::Failed(error) => Some(Err(sse_failure(error, label))),
    }
}

/// The view of a result: that of its value or of its error.
pub open spec fn result_view<T: DeepView, E: DeepView>(result: Result<T, E>) -> Result<
    T::V,
    E::V,
> {
    match result {
        Ok(value) => Ok(value.deep_view()),
        Err(error) => Err(error.deep_view()),
    }
}

/// The error for a status that no event stream has.
pub fn status_error(status: u16) -> (r: AIApiError)
    ensures
        r.deep_view() == status_failure(status),
{
    if status == 429 {
        AIApiError::QuotaLimit { user_display_message: None }
    } else if 500 <= status && status < 600 {
        AIApiError::ServerOverloaded
    } else {
        let mut text = "HTTP ".to_string();
        text.append(decimal_text(status as u64).as_str());
        AIApiError::ErrorStatus(status, text)
    }
}

/// The error for a failed event stream.
pub(crate) fn sse_error(error: SseError, label: &str) -> (r: AIApiError)
    ensures
        r.deep_view() == sse_failure(error.deep_view(), label@),
{
    match error {
        SseError::Transport(cause) => AIApiError::Transport(cause),
        SseError::InvalidStatusCode(status) => status_error(status),
        SseError::Other(text) => failure(label, text.as_str()),
    }
}

/// What a stream's reader gets of an event.
pub(crate) fn sse_item(event: SseEvent, label: &str) -> (r: Option<Result<String, AIApiError>>)
    ensures
        match (r, sse_payload(event.deep_view(), label@)) {
            (Some(item), Some(payload)) => result_view(item) == payload,
            (None, None) => true,
            _ => false,
        },
{
    match event {
        SseEvent::Open => None,
        SseEvent::Message(data) => if data.as_str().is_empty() {
            None
        } else {
            Some(Ok(data))
        },
        SseEvent::Failed(error) => Some(Err(sse_error(error, label))),
    }
}

/// The words of a failure, behind what failed.
pub(crate) fn failure(what: &str, words: &str) -> (r: AIApiError)
    ensures
        r.deep_view() == AIApiErrorView::Other(what@ + words@),
{
    let mut message = what.to_string();
    message.append(words);
    AIApiError::Other(message)
}

/// Two labels change only the words of an error that has no error of its own: what the
/// exchange or the status says is the same whoever reports it.
pub proof fn law_sse_failure_label(error: SseErrorView, a: Seq<char>, b: Seq<char>)
    ensures
        !(error is Other) ==> sse_failure(error, a) == sse_failure(error, b),
        !(error is Other) ==> !(sse_failure(error, a) is Other),
{
}

} // verus!
