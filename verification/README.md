# crs

Decision rules behind `crs`, a command line that reads Codex threads and helps review agent
diffs with few keystrokes, written in Verus with their contracts proved.

- `src/types/`: the catalog of review design choices (approval and context locations, capture,
  selection, delivery, effort) and the laws that relate their properties.
- `src/facts.rs`: facts about the working environment that the tool relies on.
- `src/functions/`: app-server locator parsing, request building, page-stream steps, editor
  selection and the page-size limit of the thread store.
- `src/command/`: the decisions of the commands: which threads or messages a window of the
  stream selects, which item is a final answer, and how a session outcome is settled.
- `src/ids.rs`: version 7 identifiers for messages and reviews.
- `app/`: the command line itself: argument parsing, the app-server connection, streams and output.
