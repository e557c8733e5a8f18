# kissbot_agent

An agent process that connects to chat channels over websockets, batches what arrives,
asks a language model (OpenAI- or Anthropic-style APIs) for replies, runs tool calls, keeps
each session's context on disk and remembers conversations in an external memory store.

## Layout

- `src/` — the library, verified with Verus: the configuration model and its layering
  (`configs`, `effective`, `nexus_repo`, `agent_role`, `context_config`), administrator
  commands (`command`, `command_exec`, `key_change`, `management`), message routing and
  batching (`incoming`, `channel`, `batching`, `message`), session contexts (`context_builder`,
  `session_context`, `context_cache`), pipelines and their decisions (`pipelines`), model
  request and response bodies (`provider`, `json`, `think`), memory recall and records
  (`memory_reader`, `recent`, `memory_records`, `order`), the system prompt built from memory
  (`ego`), the station rules, the tools a session is offered and the read tool's path rules
  (`station`), and the properties
  that span several operations (`laws`).
- `app/` — the program around the library: configuration files, the websocket transport, the
  HTTP clients for the model and memory services, the management API and the session loop.
- `tests/` — tests of the library on concrete values.
