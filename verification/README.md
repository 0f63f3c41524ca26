# gws_mcp

An MCP (Model Context Protocol) server for Google Workspace — Gmail,
Calendar, Drive, Docs, Sheets, Slides, Forms, Tasks, Meet, Photos and
NotebookLM — whose core is verified with Verus.

## Layout

- `src/` — the verified library.
  - `tools.rs`: the twelve tools, their operations and arguments, and the
    check that turns arguments into one service call (or names the first
    missing argument); the replies the tools build themselves.
  - `replies.rs`: what each tool answers once its service call has
    returned.
  - `server.rs`: the tool registry (one tool per name) and its laws.
  - `rpc.rs`: what each JSON-RPC request is answered with.
  - `client.rs`: every Google API request (method, URL, JSON body), RFC 2822
    messages, multipart uploads and batches.
  - `auth.rs`: the multi-account token store, token expiry and refresh
    decisions, the OAuth consent URL and callback.
  - `notebooklm.rs`: the batchexecute protocol of NotebookLM: session
    tokens, cookies, chunked responses, RPC results and chat answers.
  - `models.rs`, `ports.rs`: the resources and value objects.
  - `json.rs`, `text.rs`: JSON documents and text operations with their
    models.
  - `outside.rs`: the calls into `urlencoding`, `base64`, `url`, `uuid`,
    `rand` and `chrono`, each behind a stated contract.
- `app/` — the program around the library: standard input and output,
  HTTP, files, the OAuth callback listener, serde forms and JSON schemas.
- `tests/` — tests of the library on concrete values.
