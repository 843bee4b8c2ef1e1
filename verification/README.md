# sts2agent

An agent that plays Slay the Spire 2 alongside the player.  It reads the game
state from a game server over MCP (JSON-RPC on stdio), asks an
OpenAI-compatible chat model what to do, looks things up in local
game-knowledge tables, and, with the player's consent, carries the chosen
actions out.  It runs as a terminal UI, as one-shot commands (`decide`,
`play`), as a read-only knowledge server, and as a scripted mock game server
for testing.

## Layout

- `src/` is the library, written in Verus: every function carries a contract
  and is proved against it.
  - `text`, `json`: text primitives and the JSON document model (parsing and
    rendering go through `serde_json`).
  - `model`, `actions`: the game state, the actions and their request bodies.
  - `parse`: reading the model's output (tool calls and `ACTION:` lines).
  - `lookup`, `context`, `knowledge_server`: the knowledge tables, the
    reference put before the model, and the knowledge server's tools.
  - `slim`, `decide`, `decision`: the prompt and the tools offered to the model.
  - `llm`: messages, usage, and the decoding of streamed completions.
  - `mcp`, `mock`: the MCP messages and the scripted mock game.
  - `app`, `runner`, `ui`, `play`, `storage`: the decisions of the interactive
    agent and of the autoplay loop, what the panels show, and session records.
- `app/` is the program around the library: argument handling, files,
  processes, HTTP, the async event loop and the terminal drawing.
- `tests/` runs the library on concrete values.
