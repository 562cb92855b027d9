# grengin_api

The decision logic of the Grengin API server, written in Verus: every
function in `src/` carries a contract that Verus proves, except the few
wrappers that call serde_json, uuid, base64 and std, whose contracts are
trusted and say what those calls return.

- `src/llm/` decodes the server-sent events of the LLM providers (OpenAI,
  Anthropic, Mistral chat and conversations, Gemini, Groq) into stream
  results, tracks web-search progress, and builds the tool settings and
  tool-result messages sent back to the providers. `src/llm/laws.rs` states
  what the decoders keep across events.
- `src/chat_stream.rs` is the chat turn as a state machine: provider
  selection, tool routing, what each decoded event sends to the client, and
  when another round of tool calls runs. `src/chat_stream_laws.rs` states
  what every turn keeps.
- `src/stream_envelope.rs` is the frame of a chat stream: the events that
  open it, the answer of an image model, and the closing events up to
  `done`.
- `src/prompt_context.rs` places the system prompt, project and skill
  instructions and the MCP server context among the prompts.
- `src/departments.rs`, `src/department_tree.rs`, `src/department_list.rs`:
  department depth and moves, the department tree with its member totals,
  and the order of department listings.
- `src/listing.rs`, `src/chats.rs`, `src/discovery.rs`: paging, ordering and
  conditional responses of the listing endpoints.
- `src/roles.rs`, `src/users.rs`, `src/sso.rs`, `src/mcp_access.rs`,
  `src/tool_sync.rs`, `src/ai_engines.rs`, `src/reconfigure.rs`,
  `src/files.rs`: the rules of the administration endpoints.
- `src/json.rs`, `src/ids.rs`, `src/text.rs`, `src/table.rs`: JSON values,
  ids, text and small tables, with the calls into serde_json, uuid and
  base64 behind trusted wrappers.

`app/` is plain Rust around the library: conversions to and from
serde_json values and uuids, reading stored files, and stream parsers
shared behind a lock. `tests/` runs the library on concrete values.
