# Pangu (盘古)

A tool-using AI agent with working memory and an error-driven evolution
engine, written as a Verus library with its contracts proved.

- `src/` — the verified library:
  - `agent.rs`: the ReAct loop as a state machine. `Agent::start` and
    `Agent::handle` decide the next step (call the model, call a tool, finish)
    from the outcome the driver hands back.
  - `memory/working.rs`: working memory, its token estimate and compression.
  - `tools/`: the tool registry (unique names), the executor's result rules,
    and the request planning and output shaping of the shell, file and web
    tools.
  - `evolution/`: error collection, error analysis into correction
    strategies, and skill generation requests.
  - `llm/`: the model messages and the OpenAI provider's settings.
  - `gateway/`: the gateway's settings, key masking, provider choice and the
    answers of its handlers.
  - `tui.rs`: the terminal client's state and key handling.
  - `text.rs`, `outside.rs`: text utilities, and the trusted calls into
    `serde_json`, `uuid` and `chrono`.
- `app/` — the program around it: command line, HTTP gateway (axum), model
  calls (reqwest), running tools, SQLite stores, the terminal UI (ratatui).
- `tests/` — tests of the library.
