# web_search_mcp

The logic of an MCP (Model Context Protocol) server that offers web search
tools backed by several providers (Kimi, Zhipu, Volcano Engine, Tencent
Cloud, Aliyun), verified with Verus.

- `src/` is the verified library:
  - `params` — the URL query parameters, as a map;
  - `json` — a JSON document model and its mathematical view;
  - `text` — string helpers specified over `Seq<char>`;
  - `provider` — the providers, the registry that lists them as MCP tools
    and resolves tool calls (with the `web-search` alias), each provider's
    request and the reading of its answers, the Kimi conversation as a
    state machine, and the laws of listing and resolution;
  - `protocol` — version negotiation, JSON-RPC message handling and the
    decisions of the HTTP endpoint;
  - `cli` — the command line.
- `app/main.rs` is the server around it: axum for HTTP, reqwest for the
  provider calls, serde_json for parsing and printing JSON.
- `tests/` runs the library on concrete inputs.
