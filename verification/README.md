# jasper_mcp

What the MCP (Model Context Protocol) endpoint of the Jasper note server decides,
written and proved in Verus: who gets in, which tools may run, what each handler of
the note server is asked, and what the client is answered.

- `src/` is the verified library.
  - `guard` – the switch and the API key of the endpoint.
  - `access` – access levels, and the two checks that every tool that writes asks.
  - `tool` – the tools, their names, and what clients are told of them.
  - `args`, `request` – what clients send, and what handlers are asked.
  - `server` – the tools, each in two halves around its handler.
  - `status`, `error`, `json` – how outcomes become replies and errors.
  - `info` – what the server tells of itself.
  - `laws` – what holds of the endpoint as a whole.
- `app/` mounts the library in an axum router over Streamable HTTP. The note server
  implements its `Host` trait: settings, and the handlers that do the work.
- `tests/` runs the library with the outside crates.
