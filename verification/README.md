# open_kanojyo

A terminal chat client for LLMs, with its logic verified by Verus.

- `src/` is the verified library: prompt assembly (persona, skill catalog,
  context documents), the skill registry and the `load_skill` tool, the
  capped output of the `shell` tool, setting parsers, the worker's command
  queue, and the chat screen's view model (state transitions, key and mouse
  handling, scrolling, word wrapping and bubble layout).
- `app/` is the program around it: configuration from the environment, the
  model client, the tokio worker loop, child processes and the terminal.
- `tests/` runs the library on concrete values.
