# local_agent

Agent conversations served by an endpoint of the user's own: a verified library, written in
[Verus](https://github.com/verus-lang/verus), and a thin shell around it.

- `src/` decides. It turns a request into the conversation that a model is shown, says where and
  in which protocol it goes (OpenAI-compatible chat completions or Anthropic messages), grows an
  answer from what the endpoint streams back, and makes the events of the response from it. Every
  function has a contract that Verus proves; `src/laws.rs` states what holds of whole responses.
- `app/` acts. It sends requests, reads event streams, encodes and decodes JSON with serde, and
  stops when it is cancelled.
- `tests/` runs the library on concrete values, with the outside crates linked.

Calls into outside crates (`serde_json`, `url`, `uuid`) and into parts of std stand behind trusted
items: small functions whose contracts are believed, each with a comment that names the outside
function and says what is claimed of it.
