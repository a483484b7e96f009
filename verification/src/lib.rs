//! An MCP (Model Context Protocol) web search server's logic: the URL
//! parameters that configure the search providers, the tools those
//! providers offer, the resolution of tool calls (with the `web-search`
//! alias), the providers' requests and the reading of their answers, and
//! the JSON-RPC message handling with protocol version negotiation.
//!
//! The HTTP server, the HTTP client and JSON parsing and printing live in
//! the program around this library; they hand it plain values and
//! `JsonValue` documents and perform what it decides.
use vstd::prelude::*;

pub mod cli;
pub mod json;
pub mod params;
pub mod protocol;
pub mod provider;
pub mod text;

pub use json::JsonValue;
pub use params::UrlParams;
pub use provider::{
    build_registry, AliyuncsProvider, ContentItem, KimiProvider, McpTool, ProviderRegistry,
    SearchProvider, TencentmaasProvider, VolcesProvider, WebSearchResult, ZaiProvider,
};

verus! {
} // verus!
