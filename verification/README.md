# rust-lsp-mcp

An MCP server that exposes rust-analyzer functionality as tools for AI agents. The server
manages a single rust-analyzer session at a time; the workspace root is set on the first tool
call, and a call for another root shuts the previous session down and replaces it.

## Layout

- `src/` — the verified library (Verus):
  - `text`, `json`, `path` — strings, a JSON model, Unix paths and `file://` URIs
    (normalization, percent encoding and decoding, the URI round trip);
  - `rpc`, `pending` — JSON-RPC identifiers, transport errors and events, the routing of
    incoming messages, and the table of requests awaiting a response;
  - `lsp`, `rust_analyzer` — the LSP and rust-analyzer request and result shapes;
  - `client_config` — the default client capabilities, initialization options and
    workspace configuration;
  - `resolve` — resolving a document path against the file system;
  - `workspace` — the workspace session state machine: handshake, loading progress,
    buffered events, the configuration exchange and open-document synchronization;
  - `server` — the MCP error taxonomy, tool schemas, normalization of analyzer results,
    and the server's routing decisions.
- `app/` — the program around the library: the child process and its reader threads, the
  LSP wire types, the `rmcp` tool handlers and the serialized forms of the schemas.
- `tests/` — tests of the library.
