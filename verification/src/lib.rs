//! The local agent provider: agent conversations served by an endpoint of the user's own.
//!
//! A request becomes a conversation (`history`) that is sent to an endpoint in one of two
//! protocols (`provider`, `openai`, `anthropic`). What the endpoint streams back grows into an
//! answer (`stream`, `calls`), and the answer becomes the events of a response (`response`).
//! `laws` states what holds of whole responses, and the modules whose names end in `laws` what
//! holds of the parts. Sending and receiving is left to the caller.
pub mod anthropic;
pub mod api;
pub mod call_laws;
pub mod calls;
pub mod error;
pub mod event_laws;
pub mod history;
pub mod history_laws;
pub mod http;
pub mod ids;
pub mod json;
pub mod laws;
pub mod openai;
pub mod proto;
pub mod provider;
pub mod request_laws;
pub mod response;
pub mod settings;
pub mod stream;
pub mod stream_laws;
pub mod text;
pub mod tool_laws;
pub mod tools;
