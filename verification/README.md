# fathom

A client library for the OpenAI Deep Research API (the Responses API with the
deep research models), with its command line and MCP server around it.

- `src/` is the library, verified with Verus:
  - `api/types.rs` — request and response types, and the reading of research
    output: the final report, its citations, the reasoning summaries and the
    number of research steps, each specified over the output sequence.
  - `api/client.rs` — the client configuration (API key header, base URL),
    the request body built from `CreateOptions`, the polling schedule, and
    the error messages.
  - `mcp/server.rs` — mapping MCP tool parameters to requests and shaping
    what each tool answers.
  - `cli.rs` — the command definitions and what each command prints.
  - `text.rs` — decimal rendering, suffix trimming and string joins.
- `app/` is the program around it: argument parsing, HTTP calls, JSON, the
  MCP transports and printing.
- `tests/` runs the library on concrete values.
