# talos

A JSON-RPC security proxy for Model Context Protocol servers. It sits
between an AI agent and a tool server, inspects every tool call, and holds back
the dangerous ones: destructive shell commands, encoded payloads, network
exfiltration, reads of private keys and credentials, and writes of malicious
scripts. A held-back call is put to the user on the terminal; if the user
refuses, the agent gets a JSON-RPC error response instead.

## Layout

- `src/` — the verified library (Verus).
  - `filter.rs` — the request model, the built-in rules, and the filter's
    decision, stated as the spec function `decision` and implemented by
    `SecurityFilter::inspect_resolved` / `inspect_request`.
  - `laws.rs` — properties of the decision proved for every request.
  - `rule.rs` — compiled `regex` rules.
  - `json.rs` — the JSON value model and JSON string quoting.
  - `framing.rs` — splitting the client's byte stream into complete JSON values.
  - `gateway.rs` — what the proxy does with each message and with the user's answer.
  - `text.rs` — substring search, equality and joining on text.
- `app/` — the program: process spawning, stdin/stdout plumbing, the terminal
  prompt, and the serde forms of the JSON-RPC types.
- `tests/` — tests of the library.
