//! The MCP side of the server: protocol version negotiation, JSON-RPC
//! message handling, and the decisions of the HTTP endpoint.
use vstd::prelude::*;
use crate::json::{
    Json, JsonValue, json_str, keys_of, vals_of, object, array, push_field, get_field, index_field,
    text_of, item_views, opt_view,
};
use crate::params::UrlParams;
use crate::provider::{
    ProviderRegistry, ToolCall, WebSearchResult, McpTool, available_tools, resolve, tool_json,
    tool_views, result_json, listed_tools, query_schema,
};
use crate::text::{is_blank, join, join_strings, str_eq, str_is_blank, str_contains, contains_seq, views};

verus! {

/// The newest protocol version the server speaks.
pub open spec fn latest_version() -> Seq<char> {
    "2026-07-28"@
}

/// The protocol versions the server speaks, oldest first.
pub open spec fn supported_versions() -> Seq<Seq<char>> {
    seq!["2025-11-25"@, "2026-07-28"@]
}

/// The views of an optional string.
pub open spec fn opt_str(o: Option<String>) -> Option<Seq<char>> {
    match o {
        Some(s) => Some(s@),
        None => None,
    }
}

/// The views of an optional JSON value.
pub open spec fn opt_json(o: Option<JsonValue>) -> Option<Json> {
    match o {
        Some(v) => Some(v@),
        None => None,
    }
}

/// The JSON an optional value stands for (`Null` where there is none).
pub open spec fn json_or_null(o: Option<Json>) -> Json {
    match o {
        Some(v) => v,
        None => Json::Null,
    }
}

/// The MCP headers of an HTTP request that the server reads (each as
/// text, where it has a textual value).
#[derive(Debug)]
pub struct McpHeaders {
    /// `mcp-protocol-version`
    pub protocol_version: Option<String>,
    /// `mcp-method`
    pub method: Option<String>,
    /// `mcp-name`
    pub name: Option<String>,
    /// `accept`
    pub accept: Option<String>,
}

/// The headers as mathematical values.
pub struct HeadersView {
    pub protocol_version: Option<Seq<char>>,
    pub method: Option<Seq<char>>,
    pub name: Option<Seq<char>>,
    pub accept: Option<Seq<char>>,
}

impl View for McpHeaders {
    type V = HeadersView;

    open spec fn view(&self) -> HeadersView {
        HeadersView {
            protocol_version: opt_str(self.protocol_version),
            method: opt_str(self.method),
            name: opt_str(self.name),
            accept: opt_str(self.accept),
        }
    }
}

/// A JSON-RPC request.
#[derive(Debug)]
pub struct RpcRequest {
    pub id: Option<JsonValue>,
    pub method: Option<String>,
    pub params: Option<JsonValue>,
    pub _meta: Option<JsonValue>,
}

/// A request as mathematical values.
pub struct RequestView {
    pub id: Option<Json>,
    pub method: Option<Seq<char>>,
    pub params: Option<Json>,
    pub meta: Option<Json>,
}

impl View for RpcRequest {
    type V = RequestView;

    open spec fn view(&self) -> RequestView {
        RequestView {
            id: opt_json(self.id),
            method: opt_str(self.method),
            params: opt_json(self.params),
            meta: opt_json(self._meta),
        }
    }
}

impl Default for RpcRequest {
    /// A request with nothing in it.
    fn default() -> (r: RpcRequest)
        ensures
            r.id is None && r.method is None && r.params is None && r._meta is None,
    {
        RpcRequest { id: None, method: None, params: None, _meta: None }
    }
}

impl RpcRequest {
    /// The request's `_meta` object, if it has one.
    pub fn req_meta(&self) -> (r: Option<&JsonValue>)
        ensures
            opt_json(self._meta) == (match r {
                Some(m) => Some(m@),
                None => None::<Json>,
            }),
    {
        self._meta.as_ref()
    }
}

/// The string value of `key` in an optional JSON value.
pub open spec fn str_field(o: Option<Json>, key: Seq<char>) -> Option<Seq<char>> {
    match json_or_null(o).get(key) {
        Some(v) => v.as_str(),
        None => None,
    }
}

/// The version that the request asks for: the `mcp-protocol-version`
/// header, else `params.protocolVersion`, else the `_meta` entry
/// `protocolVersion` or, where that key is absent,
/// `io.modelcontextprotocol/protocolVersion` (each only where it is a
/// string).
pub open spec fn requested_version(h: HeadersView, req: RequestView) -> Option<Seq<char>> {
    let meta = json_or_null(req.meta);
    let meta_version = match meta.get("protocolVersion"@) {
        Some(v) => v.as_str(),
        None => match meta.get("io.modelcontextprotocol/protocolVersion"@) {
            Some(v) => v.as_str(),
            None => None,
        },
    };
    match h.protocol_version {
        Some(v) => Some(v),
        None => match str_field(req.params, "protocolVersion"@) {
            Some(v) => Some(v),
            None => meta_version,
        },
    }
}

/// The method of a request: its own, else the `mcp-method` header.
pub open spec fn request_method(h: HeadersView, req: RequestView) -> Option<Seq<char>> {
    match req.method {
        Some(m) => Some(m),
        None => h.method,
    }
}

/// The message for a version the server does not speak.
pub open spec fn unsupported_version_message(v: Seq<char>) -> Seq<char> {
    "UnsupportedProtocolVersion: '"@ + v + "' is not supported. Supported versions: "@ + join(
        supported_versions(),
        ", "@,
    )
}

/// The negotiated protocol version: the requested one where the server
/// speaks it, an error where it does not; without a request, the latest
/// version for `server/discover` and `2025-11-25` otherwise.
pub open spec fn negotiate(h: HeadersView, req: RequestView) -> Result<Seq<char>, Seq<char>> {
    match requested_version(h, req) {
        Some(v) => if supported_versions().contains(v) {
            Ok(v)
        } else {
            Err(unsupported_version_message(v))
        },
        None => if request_method(h, req) == Some("server/discover"@) {
            Ok(latest_version())
        } else {
            Ok("2025-11-25"@)
        },
    }
}

/// The version the headers and request ask for.
fn requested_version_of<'a>(headers: &'a McpHeaders, req: &'a RpcRequest) -> (r: Option<&'a String>)
    ensures
        opt_str_ref(r) == requested_version(headers@, req@),
{
    match &headers.protocol_version {
        Some(v) => {
            return Some(v);
        },
        None => {},
    }
    match text_of(get_field(req.params.as_ref(), "protocolVersion")) {
        Some(v) => {
            return Some(v);
        },
        None => {},
    }
    let meta = req.req_meta();
    assert(opt_view(meta) == json_or_null(req@.meta));
    match get_field(meta, "protocolVersion") {
        Some(v) => text_of(Some(v)),
        None => text_of(get_field(meta, "io.modelcontextprotocol/protocolVersion")),
    }
}

/// The view of an optional string reference.
pub open spec fn opt_str_ref(o: Option<&String>) -> Option<Seq<char>> {
    match o {
        Some(s) => Some(s@),
        None => None,
    }
}

/// The method of the request, or of the `mcp-method` header.
fn method_of<'a>(headers: &'a McpHeaders, req: &'a RpcRequest) -> (r: Option<&'a String>)
    ensures
        opt_str_ref(r) == request_method(headers@, req@),
{
    match &req.method {
        Some(m) => Some(m),
        None => headers.method.as_ref(),
    }
}

/// The supported versions, as strings.
fn supported_version_list() -> (r: Vec<String>)
    ensures
        views(r@) == supported_versions(),
{
    let mut r = Vec::new();
    r.push(String::from_str("2025-11-25"));
    r.push(String::from_str("2026-07-28"));
    assert(views(r@) =~= supported_versions());
    r
}

/// Negotiates the protocol version from the request's headers and body.
pub fn negotiate_version(headers: &McpHeaders, req: &RpcRequest) -> (r: Result<&'static str, String>)
    ensures
        match r {
            Ok(v) => negotiate(headers@, req@) == Ok::<Seq<char>, Seq<char>>(v@),
            Err(e) => negotiate(headers@, req@) == Err::<Seq<char>, Seq<char>>(e@),
        },
{
    match requested_version_of(headers, req) {
        Some(v) => {
            if str_eq(v.as_str(), "2025-11-25") {
                assert(supported_versions()[0] == v@);
                Ok("2025-11-25")
            } else if str_eq(v.as_str(), "2026-07-28") {
                assert(supported_versions()[1] == v@);
                Ok("2026-07-28")
            } else {
                assert(!supported_versions().contains(v@));
                let mut m = String::from_str("UnsupportedProtocolVersion: '");
                m.append(v.as_str());
                m.append("' is not supported. Supported versions: ");
                let list = join_strings(&supported_version_list(), ", ");
                m.append(list.as_str());
                Err(m)
            }
        },
        None => {
            let is_discover = match method_of(headers, req) {
                Some(m) => str_eq(m.as_str(), "server/discover"),
                None => false,
            };
            if is_discover {
                Ok("2026-07-28")
            } else {
                Ok("2025-11-25")
            }
        },
    }
}

/// A JSON-RPC error: code and message.
#[derive(Debug)]
pub struct RpcError {
    pub code: i32,
    pub message: String,
}

/// A JSON-RPC response.
#[derive(Debug)]
pub struct RpcResponse {
    pub jsonrpc: &'static str,
    pub id: Option<JsonValue>,
    pub result: Option<JsonValue>,
    pub error: Option<RpcError>,
}

/// A response as mathematical values.
pub struct ResponseView {
    pub jsonrpc: Seq<char>,
    pub id: Option<Json>,
    pub result: Option<Json>,
    pub error: Option<(int, Seq<char>)>,
}

impl View for RpcResponse {
    type V = ResponseView;

    open spec fn view(&self) -> ResponseView {
        ResponseView {
            jsonrpc: self.jsonrpc@,
            id: opt_json(self.id),
            result: opt_json(self.result),
            error: match self.error {
                Some(e) => Some((e.code as int, e.message@)),
                None => None,
            },
        }
    }
}

/// A success response with the given id and result.
pub open spec fn success_view(id: Option<Json>, result: Json) -> ResponseView {
    ResponseView { jsonrpc: "2.0"@, id: id, result: Some(result), error: None }
}

/// An error response with the given id, code and message.
pub open spec fn error_view(id: Option<Json>, code: int, message: Seq<char>) -> ResponseView {
    ResponseView { jsonrpc: "2.0"@, id: id, result: None, error: Some((code, message)) }
}

/// The decimal representation of a signed number.
pub open spec fn signed_decimal(n: int) -> Seq<char> {
    if n < 0 {
        "-"@ + crate::text::decimal((-n) as nat)
    } else {
        crate::text::decimal(n as nat)
    }
}

/// The JSON form of a response: `jsonrpc`, then `id`, `result` and `error`
/// where they are present.
pub open spec fn response_json(r: ResponseView) -> Json {
    let k0 = seq!["jsonrpc"@];
    let v0 = seq![Json::Str(r.jsonrpc)];
    let (k1, v1) = match r.id {
        Some(id) => (k0.push("id"@), v0.push(id)),
        None => (k0, v0),
    };
    let (k2, v2) = match r.result {
        Some(res) => (k1.push("result"@), v1.push(res)),
        None => (k1, v1),
    };
    match r.error {
        Some(e) => Json::Object(
            k2.push("error"@),
            v2.push(Json::Object(seq!["code"@, "message"@], seq![Json::Number(signed_decimal(e.0)), Json::Str(e.1)])),
        ),
        None => Json::Object(k2, v2),
    }
}

impl RpcResponse {
    /// A success response.
    pub fn success(id: Option<JsonValue>, result: JsonValue) -> (r: RpcResponse)
        ensures
            r@ == success_view(opt_json(id), result@),
    {
        RpcResponse { jsonrpc: "2.0", id, result: Some(result), error: None }
    }

    /// An error response.
    pub fn error(id: Option<JsonValue>, code: i32, message: String) -> (r: RpcResponse)
        ensures
            r@ == error_view(opt_json(id), code as int, message@),
    {
        RpcResponse { jsonrpc: "2.0", id, result: None, error: Some(RpcError { code, message }) }
    }

    /// The response as JSON, leaving out the parts it does not have.
    pub fn to_json_value(self) -> (r: JsonValue)
        ensures
            r@ == response_json(self@),
    {
        let ghost v = self@;
        let mut fields = Vec::new();
        push_field(&mut fields, "jsonrpc", json_str(self.jsonrpc));
        let ghost k0 = keys_of(fields@);
        let ghost v0 = vals_of(fields@);
        assert(k0 =~= seq!["jsonrpc"@]);
        assert(v0 =~= seq![Json::Str(v.jsonrpc)]);
        let ghost (k1, v1) = match v.id {
            Some(id) => (k0.push("id"@), v0.push(id)),
            None => (k0, v0),
        };
        match self.id {
            Some(id) => push_field(&mut fields, "id", id),
            None => {},
        }
        assert(keys_of(fields@) =~= k1);
        assert(vals_of(fields@) =~= v1);
        let ghost (k2, v2) = match v.result {
            Some(res) => (k1.push("result"@), v1.push(res)),
            None => (k1, v1),
        };
        match self.result {
            Some(res) => push_field(&mut fields, "result", res),
            None => {},
        }
        assert(keys_of(fields@) =~= k2);
        assert(vals_of(fields@) =~= v2);
        match self.error {
            Some(e) => {
                let ghost ev = (e.code as int, e.message@);
                let mut ef = Vec::new();
                push_field(&mut ef, "code", JsonValue::Number(signed_decimal_string(e.code)));
                push_field(&mut ef, "message", JsonValue::Str(e.message));
                assert(keys_of(ef@) =~= seq!["code"@, "message"@]);
                assert(vals_of(ef@) =~= seq![Json::Number(signed_decimal(ev.0)), Json::Str(ev.1)]);
                let eo = object(ef);
                push_field(&mut fields, "error", eo);
            },
            None => {},
        }
        object(fields)
    }
}

/// The decimal representation of `n`.
pub fn signed_decimal_string(n: i32) -> (r: String)
    ensures
        r@ == signed_decimal(n as int),
{
    if n < 0 {
        let mut s = String::from_str("-");
        let m: i64 = -(n as i64);
        crate::text::push_decimal(&mut s, m as u64);
        s
    } else {
        crate::text::decimal_string(n as u64)
    }
}

/// The result of `server/discover` and `initialize`: the negotiated
/// version, the supported versions, the tools capability, the server's
/// name and version.
pub open spec fn discover_json(version: Seq<char>) -> Json {
    Json::Object(
        seq!["protocolVersion"@, "supportedVersions"@, "capabilities"@, "serverInfo"@],
        seq![
            Json::Str(version),
            Json::Array(seq![Json::Str("2025-11-25"@), Json::Str("2026-07-28"@)]),
            Json::Object(seq!["tools"@], seq![Json::Object(seq!["listChanged"@], seq![Json::Bool(true)])]),
            Json::Object(seq!["name"@, "version"@], seq![Json::Str("web-search-mcp"@), Json::Str("1.0.0"@)]),
        ],
    )
}

/// The result of `subscriptions/listen`.
pub open spec fn listening_json() -> Json {
    Json::Object(
        seq!["status"@, "subscriptions"@],
        seq![Json::Str("listening"@), Json::Array(seq![Json::Str("toolsListChanged"@)])],
    )
}

/// The result of `tools/list`: the tool definitions.
pub open spec fn tools_list_json(tools: Seq<crate::provider::ToolSpec>) -> Json {
    Json::Object(seq!["tools"@], seq![Json::Array(tools.map_values(|t: crate::provider::ToolSpec| tool_json(t)))])
}

/// The text that asks for a search query.
pub open spec fn empty_query_text() -> Seq<char> {
    "请输入搜索关键词"@
}

/// The result of a `tools/call` without a query.
pub open spec fn empty_query_json() -> Json {
    result_json(seq![("text"@, empty_query_text())])
}

/// What handling a message comes to.
pub enum OutcomeView {
    /// A response.
    Reply(ResponseView),
    /// No response (a notification).
    Silent,
    /// A search by the provider at the given position of the registry; its
    /// result answers the request with the given id.
    Search(Option<Json>, int, Seq<char>),
}

/// The parameters of a `tools/call`: the request's, or an empty object.
pub open spec fn call_params(req: RequestView) -> Json {
    match req.params {
        Some(p) => p,
        None => Json::Object(Seq::empty(), Seq::empty()),
    }
}

/// The tool that a `tools/call` names: `params.name` where it is a string,
/// else the `mcp-name` header.
pub open spec fn call_tool_name(h: HeadersView, req: RequestView) -> Option<Seq<char>> {
    match str_field(Some(call_params(req)), "name"@) {
        Some(n) => Some(n),
        None => h.name,
    }
}

/// The query of a `tools/call`: `params.arguments.query` where it is a
/// string.
pub open spec fn call_query(req: RequestView) -> Option<Seq<char>> {
    match call_params(req).index("arguments"@).get("query"@) {
        Some(q) => q.as_str(),
        None => None,
    }
}

/// What a `tools/call` comes to: an error without a tool name, a prompt for
/// a query where the query is missing or blank, an error where the tool
/// does not resolve, and otherwise a search by the resolved provider.
pub open spec fn tool_call_outcome(entries: Seq<crate::provider::ProviderInfo>, req: RequestView, params: Map<Seq<char>, Seq<char>>, h: HeadersView) -> OutcomeView {
    match call_tool_name(h, req) {
        Some(name) if name.len() > 0 => match call_query(req) {
            Some(q) if !is_blank(q) => match resolve(entries, name, params) {
                Ok(i) => OutcomeView::Search(req.id, i, q),
                Err(e) => OutcomeView::Reply(error_view(req.id, -32603, e)),
            },
            _ => OutcomeView::Reply(success_view(req.id, empty_query_json())),
        },
        _ => OutcomeView::Reply(error_view(req.id, -32603, "Missing tool name in params or Mcp-Name header"@)),
    }
}

/// What handling the request `req` comes to, by its method (its own, else
/// the `mcp-method` header).
pub open spec fn message_outcome(entries: Seq<crate::provider::ProviderInfo>, req: RequestView, params: Map<Seq<char>, Seq<char>>, h: HeadersView, version: Seq<char>) -> OutcomeView {
    let method = match request_method(h, req) {
        Some(m) => m,
        None => Seq::empty(),
    };
    if method == "server/discover"@ || method == "initialize"@ {
        OutcomeView::Reply(success_view(req.id, discover_json(version)))
    } else if method == "notifications/initialized"@ {
        OutcomeView::Silent
    } else if method == "subscriptions/listen"@ {
        OutcomeView::Reply(success_view(req.id, listening_json()))
    } else if method == "tools/list"@ {
        OutcomeView::Reply(success_view(req.id, tools_list_json(available_tools(entries, params))))
    } else if method == "tools/call"@ {
        tool_call_outcome(entries, req, params, h)
    } else {
        OutcomeView::Reply(error_view(req.id, -32601, "Method '"@ + method + "' not found"@))
    }
}

/// A search that a `tools/call` asks for: the request's id and the call.
#[derive(Debug)]
pub struct PendingSearch {
    pub id: Option<JsonValue>,
    pub call: ToolCall,
}

/// What handling a message comes to.
#[derive(Debug)]
pub enum MessageOutcome {
    /// Send this response.
    Reply(RpcResponse),
    /// Send no response.
    Silent,
    /// Run this search, then answer with `PendingSearch::complete`.
    Search(PendingSearch),
}

/// Whether `o` is what `expected` describes for the registry `entries`.
pub open spec fn outcome_matches(o: MessageOutcome, expected: OutcomeView, entries: Seq<crate::provider::ProviderInfo>) -> bool {
    match (o, expected) {
        (MessageOutcome::Reply(r), OutcomeView::Reply(v)) => r@ == v,
        (MessageOutcome::Silent, OutcomeView::Silent) => true,
        (MessageOutcome::Search(p), OutcomeView::Search(id, i, q)) => opt_json(p.id) == id && 0 <= i < entries.len()
            && p.call.provider@ == entries[i].name && p.call.tool_name@ == entries[i].tool_name && p.call.query@ == q,
        _ => false,
    }
}

impl PendingSearch {
    /// The response to the request once the search has given `result`.
    pub fn complete(self, result: Result<WebSearchResult, String>) -> (r: RpcResponse)
        ensures
            r@ == match result {
                Ok(res) => success_view(opt_json(self.id), result_json(res@)),
                Err(e) => error_view(opt_json(self.id), -32603, e@),
            },
    {
        match result {
            Ok(res) => RpcResponse::success(self.id, res.to_json_value()),
            Err(e) => RpcResponse::error(self.id, -32603, e),
        }
    }
}

/// The result of `server/discover` and `initialize`.
fn discover_result(version: &str) -> (r: JsonValue)
    ensures
        r@ == discover_json(version@),
{
    let mut versions = Vec::new();
    versions.push(json_str("2025-11-25"));
    versions.push(json_str("2026-07-28"));
    assert(item_views(versions@) =~= seq![Json::Str("2025-11-25"@), Json::Str("2026-07-28"@)]);
    let versions = array(versions);
    let ghost versions_v = versions@;
    let mut list_changed = Vec::new();
    push_field(&mut list_changed, "listChanged", JsonValue::Bool(true));
    assert(keys_of(list_changed@) =~= seq!["listChanged"@]);
    assert(vals_of(list_changed@) =~= seq![Json::Bool(true)]);
    let tools = object(list_changed);
    let ghost tools_v = tools@;
    let mut caps = Vec::new();
    push_field(&mut caps, "tools", tools);
    assert(keys_of(caps@) =~= seq!["tools"@]);
    assert(vals_of(caps@) =~= seq![tools_v]);
    let caps = object(caps);
    let ghost caps_v = caps@;
    let mut info = Vec::new();
    push_field(&mut info, "name", json_str("web-search-mcp"));
    push_field(&mut info, "version", json_str("1.0.0"));
    assert(keys_of(info@) =~= seq!["name"@, "version"@]);
    assert(vals_of(info@) =~= seq![Json::Str("web-search-mcp"@), Json::Str("1.0.0"@)]);
    let info = object(info);
    let ghost info_v = info@;
    let mut fields = Vec::new();
    push_field(&mut fields, "protocolVersion", json_str(version));
    push_field(&mut fields, "supportedVersions", versions);
    push_field(&mut fields, "capabilities", caps);
    push_field(&mut fields, "serverInfo", info);
    assert(keys_of(fields@) =~= seq!["protocolVersion"@, "supportedVersions"@, "capabilities"@, "serverInfo"@]);
    assert(vals_of(fields@) =~= seq![Json::Str(version@), versions_v, caps_v, info_v]);
    object(fields)
}

/// The result of `subscriptions/listen`.
fn listening_result() -> (r: JsonValue)
    ensures
        r@ == listening_json(),
{
    let mut subs = Vec::new();
    subs.push(json_str("toolsListChanged"));
    assert(item_views(subs@) =~= seq![Json::Str("toolsListChanged"@)]);
    let subs = array(subs);
    let ghost subs_v = subs@;
    let mut fields = Vec::new();
    push_field(&mut fields, "status", json_str("listening"));
    push_field(&mut fields, "subscriptions", subs);
    assert(keys_of(fields@) =~= seq!["status"@, "subscriptions"@]);
    assert(vals_of(fields@) =~= seq![Json::Str("listening"@), subs_v]);
    object(fields)
}

/// The result of `tools/list` for the given tools.
fn tools_list_result(tools: Vec<McpTool>) -> (r: JsonValue)
    ensures
        r@ == tools_list_json(tool_views(tools@)),
{
    let ghost tv = tool_views(tools@);
    let mut items: Vec<JsonValue> = Vec::new();
    let mut i: usize = 0;
    while i < tools.len()
        invariant
            i <= tools.len(),
            tv == tool_views(tools@),
            item_views(items@) =~= tv.take(i as int).map_values(|t: crate::provider::ToolSpec| tool_json(t)),
        decreases tools.len() - i,
    {
        let ghost before = item_views(items@);
        items.push(tools[i].to_json_value());
        assert(item_views(items@) =~= before.push(tool_json(tv[i as int])));
        assert(tv.take(i + 1) =~= tv.take(i as int).push(tv[i as int]));
        i += 1;
    }
    assert(tv.take(tools.len() as int) =~= tv);
    let arr = array(items);
    let ghost arr_v = arr@;
    let mut fields = Vec::new();
    push_field(&mut fields, "tools", arr);
    assert(keys_of(fields@) =~= seq!["tools"@]);
    assert(vals_of(fields@) =~= seq![arr_v]);
    object(fields)
}

/// The result of a `tools/call` without a query.
fn empty_query_result() -> (r: JsonValue)
    ensures
        r@ == empty_query_json(),
{
    let res = WebSearchResult::text("请输入搜索关键词");
    res.to_json_value()
}

/// Handles one JSON-RPC message: answers discovery, initialization,
/// subscription and tool listing at once; stays silent on the
/// `notifications/initialized` notification; turns a `tools/call` into a
/// search (or an answer where it cannot be one); answers any other method
/// with "method not found".
pub fn process_message(registry: &ProviderRegistry, req: RpcRequest, url_params: &UrlParams, headers: &McpHeaders, negotiated_version: &str) -> (r: MessageOutcome)
    ensures
        outcome_matches(r, message_outcome(registry@, req@, url_params@, headers@, negotiated_version@), registry@),
{
    let ghost rv = req@;
    let method = match method_of(headers, &req) {
        Some(m) => m.clone(),
        None => String::new(),
    };
    proof {
        reveal_strlit("");
    }
    let m = method.as_str();
    if str_eq(m, "server/discover") || str_eq(m, "initialize") {
        MessageOutcome::Reply(RpcResponse::success(req.id, discover_result(negotiated_version)))
    } else if str_eq(m, "notifications/initialized") {
        MessageOutcome::Silent
    } else if str_eq(m, "subscriptions/listen") {
        MessageOutcome::Reply(RpcResponse::success(req.id, listening_result()))
    } else if str_eq(m, "tools/list") {
        let tools = registry.get_available_tools(url_params);
        MessageOutcome::Reply(RpcResponse::success(req.id, tools_list_result(tools)))
    } else if str_eq(m, "tools/call") {
        let params_ref = req.params.as_ref();
        let name: Option<String> = match text_of(get_field(params_ref, "name")) {
            Some(n) => Some(n.clone()),
            None => headers.name.clone(),
        };
        proof {
            assert(opt_view(params_ref).get("name"@) == call_params(rv).get("name"@));
        }
        let name = match name {
            Some(n) => {
                if n.as_str().is_empty() {
                    return MessageOutcome::Reply(RpcResponse::error(req.id, -32603, String::from_str("Missing tool name in params or Mcp-Name header")));
                }
                n
            },
            None => {
                return MessageOutcome::Reply(RpcResponse::error(req.id, -32603, String::from_str("Missing tool name in params or Mcp-Name header")));
            },
        };
        let params_ref = req.params.as_ref();
        let query: Option<String> = match text_of(get_field(index_field(params_ref, "arguments"), "query")) {
            Some(q) => Some(q.clone()),
            None => None,
        };
        proof {
            assert(opt_view(params_ref).index("arguments"@) == call_params(rv).index("arguments"@));
        }
        let query = match query {
            Some(q) => {
                if str_is_blank(q.as_str()) {
                    return MessageOutcome::Reply(RpcResponse::success(req.id, empty_query_result()));
                }
                q
            },
            None => {
                return MessageOutcome::Reply(RpcResponse::success(req.id, empty_query_result()));
            },
        };
        match registry.call_tool(name.as_str(), query.as_str(), url_params) {
            Ok(call) => MessageOutcome::Search(PendingSearch { id: req.id, call }),
            Err(e) => MessageOutcome::Reply(RpcResponse::error(req.id, -32603, e)),
        }
    } else {
        let mut msg = String::from_str("Method '");
        msg.append(m);
        msg.append("' not found");
        MessageOutcome::Reply(RpcResponse::error(req.id, -32601, msg))
    }
}

/// The body of a POST request, as far as parsing went.
#[derive(Debug)]
pub enum BodyOutcome {
    /// The body is empty or blank.
    Empty,
    /// The body parsed as a JSON-RPC request.
    Parsed(RpcRequest),
    /// The body did not parse; the parse error's text.
    Invalid(String),
}

/// What the endpoint does with a POST request.
#[derive(Debug)]
pub enum PostAction {
    /// Answer with this status, protocol version header and response.
    Respond { status: u16, version: &'static str, response: RpcResponse },
    /// Open the subscription event stream (status 200, `ready_event`).
    Stream { version: &'static str },
    /// Accept the notification (status 202, no body).
    Accepted { version: &'static str },
    /// Run the search, then answer with status 200 and the completed response.
    Search { version: &'static str, pending: PendingSearch },
}

/// What the endpoint does, as mathematical values.
pub enum PostView {
    Respond(int, Seq<char>, ResponseView),
    Stream(Seq<char>),
    Accepted(Seq<char>),
    Search(Seq<char>, Option<Json>, int, Seq<char>),
}

/// Whether the `accept` header asks for an event stream.
pub open spec fn accepts_event_stream(h: HeadersView) -> bool {
    match h.accept {
        Some(a) => contains_seq(a, "text/event-stream"@),
        None => false,
    }
}

/// What the endpoint does with a request: a parse error is answered with
/// status 400 and code -32700; a version that cannot be negotiated with 400
/// and code -32020; a `subscriptions/listen` that accepts an event stream
/// opens the stream; otherwise the message is handled, a response given
/// with status 200, a notification accepted with 202.
pub open spec fn post_outcome(entries: Seq<crate::provider::ProviderInfo>, params: Map<Seq<char>, Seq<char>>, h: HeadersView, body: BodyOutcome) -> PostView {
    let req = match body {
        BodyOutcome::Parsed(r) => r@,
        _ => RequestView { id: None, method: None, params: None, meta: None },
    };
    match body {
        BodyOutcome::Invalid(e) => PostView::Respond(400, latest_version(), error_view(None, -32700, "Parse error: "@ + e@)),
        _ => match negotiate(h, req) {
            Err(msg) => PostView::Respond(400, latest_version(), error_view(req.id, -32020, msg)),
            Ok(version) => if request_method(h, req) == Some("subscriptions/listen"@) && accepts_event_stream(h) {
                PostView::Stream(version)
            } else {
                match message_outcome(entries, req, params, h, version) {
                    OutcomeView::Reply(resp) => PostView::Respond(200, version, resp),
                    OutcomeView::Silent => PostView::Accepted(version),
                    OutcomeView::Search(id, i, q) => PostView::Search(version, id, i, q),
                }
            },
        },
    }
}

/// Whether `a` is what `expected` describes for the registry `entries`.
pub open spec fn action_matches(a: PostAction, expected: PostView, entries: Seq<crate::provider::ProviderInfo>) -> bool {
    match (a, expected) {
        (PostAction::Respond { status, version, response }, PostView::Respond(s, v, resp)) => status as int == s
            && version@ == v && response@ == resp,
        (PostAction::Stream { version }, PostView::Stream(v)) => version@ == v,
        (PostAction::Accepted { version }, PostView::Accepted(v)) => version@ == v,
        (PostAction::Search { version, pending }, PostView::Search(v, id, i, q)) => version@ == v && opt_json(pending.id)
            == id && 0 <= i < entries.len() && pending.call.provider@ == entries[i].name && pending.call.tool_name@
            == entries[i].tool_name && pending.call.query@ == q,
        _ => false,
    }
}

/// The body of the subscription event stream's first event.
pub fn ready_event() -> (r: &'static str)
    ensures
        r@ == "event: ready\ndata: {\"status\":\"listening\"}\n\n"@,
{
    "event: ready\ndata: {\"status\":\"listening\"}\n\n"
}

/// Decides what the endpoint does with a POST request.
pub fn handle_post(registry: &ProviderRegistry, url_params: &UrlParams, headers: &McpHeaders, body: BodyOutcome) -> (r: PostAction)
    ensures
        action_matches(r, post_outcome(registry@, url_params@, headers@, body), registry@),
{
    let req = match body {
        BodyOutcome::Empty => RpcRequest::default(),
        BodyOutcome::Parsed(r) => r,
        BodyOutcome::Invalid(e) => {
            let mut m = String::from_str("Parse error: ");
            m.append(e.as_str());
            return PostAction::Respond {
                status: 400,
                version: "2026-07-28",
                response: RpcResponse::error(None, -32700, m),
            };
        },
    };
    let version = match negotiate_version(headers, &req) {
        Ok(v) => v,
        Err(msg) => {
            return PostAction::Respond { status: 400, version: "2026-07-28", response: RpcResponse::error(req.id, -32020, msg) };
        },
    };
    let is_listen = match method_of(headers, &req) {
        Some(m) => str_eq(m.as_str(), "subscriptions/listen"),
        None => false,
    };
    let accepts_sse = match &headers.accept {
        Some(a) => str_contains(a.as_str(), "text/event-stream"),
        None => false,
    };
    if is_listen && accepts_sse {
        return PostAction::Stream { version };
    }
    match process_message(registry, req, url_params, headers, version) {
        MessageOutcome::Reply(response) => PostAction::Respond { status: 200, version, response },
        MessageOutcome::Silent => PostAction::Accepted { version },
        MessageOutcome::Search(pending) => PostAction::Search { version, pending },
    }
}

/// The answer to a GET request: status, protocol version header, body.
pub fn mcp_get_reply() -> (r: (u16, &'static str, &'static str))
    ensures
        r.0 == 405,
        r.1@ == latest_version(),
        r.2@ == "Subscription stream not supported directly via GET. Use POST for Streamable HTTP."@,
{
    (405, "2026-07-28", "Subscription stream not supported directly via GET. Use POST for Streamable HTTP.")
}

/// A negotiated version is always one the server speaks.
pub proof fn law_negotiated_version_supported(h: HeadersView, req: RequestView)
    ensures
        negotiate(h, req) matches Ok(v) ==> supported_versions().contains(v),
{
    if requested_version(h, req) is None {
        assert(supported_versions()[0] == "2025-11-25"@);
        assert(supported_versions()[1] == latest_version());
    }
}

/// The `mcp-protocol-version` header decides the version alone: where it
/// is present, the request's body does not change the outcome.
pub proof fn law_header_version_takes_precedence(h: HeadersView, req1: RequestView, req2: RequestView)
    requires
        h.protocol_version is Some,
    ensures
        negotiate(h, req1) == negotiate(h, req2),
{
}

/// Every answer to a request is a JSON-RPC 2.0 response that carries the
/// request's id, and a search started for it keeps that id too.
pub proof fn law_answers_echo_request_id(entries: Seq<crate::provider::ProviderInfo>, req: RequestView, params: Map<Seq<char>, Seq<char>>, h: HeadersView, version: Seq<char>)
    ensures
        match message_outcome(entries, req, params, h, version) {
            OutcomeView::Reply(resp) => resp.jsonrpc == "2.0"@ && resp.id == req.id,
            OutcomeView::Search(id, _, _) => id == req.id,
            OutcomeView::Silent => true,
        },
{
}

/// Only the `notifications/initialized` notification goes unanswered.
pub proof fn law_only_notifications_are_silent(entries: Seq<crate::provider::ProviderInfo>, req: RequestView, params: Map<Seq<char>, Seq<char>>, h: HeadersView, version: Seq<char>)
    ensures
        (message_outcome(entries, req, params, h, version) is Silent) <==> request_method(h, req) == Some(
            "notifications/initialized"@,
        ),
{
    reveal_strlit("notifications/initialized");
    reveal_strlit("server/discover");
    reveal_strlit("initialize");
    let m = "notifications/initialized"@;
    assert(m != "server/discover"@) by {
        assert(m[0] != "server/discover"@[0]);
    }
    assert(m != "initialize"@) by {
        assert(m.len() != "initialize"@.len());
    }
    if request_method(h, req) is None {
        assert(Seq::<char>::empty() != m) by {
            assert(m.len() > 0);
        }
    }
}

/// A tool call without a query, or with a blank one, never starts a search:
/// it is answered at once.
pub proof fn law_blank_query_never_searches(entries: Seq<crate::provider::ProviderInfo>, req: RequestView, params: Map<Seq<char>, Seq<char>>, h: HeadersView, version: Seq<char>)
    requires
        match call_query(req) {
            Some(q) => is_blank(q),
            None => true,
        },
    ensures
        !(message_outcome(entries, req, params, h, version) is Search),
{
}

/// A search only goes to a provider that is available under the request's
/// URL parameters.
pub proof fn law_search_goes_to_available_provider(entries: Seq<crate::provider::ProviderInfo>, req: RequestView, params: Map<Seq<char>, Seq<char>>, h: HeadersView, version: Seq<char>)
    ensures
        message_outcome(entries, req, params, h, version) matches OutcomeView::Search(_, i, _) ==> 0 <= i
            < entries.len() && crate::provider::available(entries[i], params),
{
    match call_tool_name(h, req) {
        Some(name) => match crate::provider::resolved_tool_name(name, params) {
            Ok(n) => crate::provider::laws::lemma_tool_position_sound(entries, n, params, 0),
            Err(_) => {},
        },
        None => {},
    }
}

/// The request that a POST body carries: the parsed one, or an empty one
/// where the body is empty or does not parse.
pub open spec fn body_request(body: BodyOutcome) -> RequestView {
    match body {
        BodyOutcome::Parsed(r) => r@,
        _ => RequestView { id: None, method: None, params: None, meta: None },
    }
}

/// The endpoint opens the event stream only for a `subscriptions/listen`
/// request whose `accept` header asks for one: a request with any other
/// method is answered, accepted or searched for, whatever its `accept`
/// header says.
pub proof fn law_stream_only_for_listen(entries: Seq<crate::provider::ProviderInfo>, params: Map<Seq<char>, Seq<char>>, h: HeadersView, body: BodyOutcome)
    ensures
        post_outcome(entries, params, h, body) is Stream ==> request_method(h, body_request(body)) == Some(
            "subscriptions/listen"@,
        ) && accepts_event_stream(h),
        request_method(h, body_request(body)) != Some("subscriptions/listen"@) ==> !(post_outcome(
            entries,
            params,
            h,
            body,
        ) is Stream),
{
}

/// The result of `initialize` and `server/discover` names the negotiated
/// version as the protocol version and lists, in order, every version the
/// server speaks, whatever version was negotiated.
pub proof fn law_discovery_lists_all_versions(entries: Seq<crate::provider::ProviderInfo>, req: RequestView, params: Map<Seq<char>, Seq<char>>, h: HeadersView, version: Seq<char>)
    requires
        request_method(h, req) == Some("initialize"@) || request_method(h, req) == Some("server/discover"@),
    ensures
        match message_outcome(entries, req, params, h, version) {
            OutcomeView::Reply(resp) => resp.error is None && resp.id == req.id && match resp.result {
                Some(r) => r.get("protocolVersion"@) == Some(Json::Str(version)) && r.get("supportedVersions"@)
                    == Some(Json::Array(supported_versions().map_values(|v: Seq<char>| Json::Str(v)))),
                None => false,
            },
            _ => false,
        },
{
    reveal_strlit("protocolVersion");
    reveal_strlit("supportedVersions");
    reveal_strlit("initialize");
    reveal_strlit("server/discover");
    reveal_with_fuel(crate::json::key_position, 3);
    assert(supported_versions().map_values(|v: Seq<char>| Json::Str(v)) =~= seq![
        Json::Str("2025-11-25"@),
        Json::Str("2026-07-28"@),
    ]);
    assert("protocolVersion"@ != "supportedVersions"@) by {
        assert("protocolVersion"@[0] != "supportedVersions"@[0]);
    }
    assert("server/discover"@ != "initialize"@) by {
        assert("server/discover"@[0] != "initialize"@[0]);
    }
}

proof fn lemma_listed_schemas(entries: Seq<crate::provider::ProviderInfo>, params: Map<Seq<char>, Seq<char>>)
    ensures
        forall|k: int|
            0 <= k < listed_tools(entries, params).len() ==> (#[trigger] listed_tools(entries, params)[k]).input_schema
                == query_schema(),
    decreases entries.len(),
{
    if entries.len() > 0 {
        lemma_listed_schemas(entries.drop_last(), params);
    }
}

/// Every listed tool, the `web-search` alias included, declares one
/// required argument, the string property `query`, and that is the argument
/// a `tools/call` reads its query from.
pub proof fn law_tools_declare_the_query_argument(entries: Seq<crate::provider::ProviderInfo>, params: Map<Seq<char>, Seq<char>>, k: int)
    requires
        0 <= k < available_tools(entries, params).len(),
    ensures
        available_tools(entries, params)[k].input_schema.get("type"@) == Some(Json::Str("object"@)),
        available_tools(entries, params)[k].input_schema.get("required"@) == Some(
            Json::Array(seq![Json::Str("query"@)]),
        ),
        available_tools(entries, params)[k].input_schema.index("properties"@).get("query"@) is Some,
        available_tools(entries, params)[k].input_schema.index("properties"@).index("query"@).get("type"@)
            == Some(Json::Str("string"@)),
        forall|req: RequestView|
            #[trigger] call_query(req) == call_params(req).index("arguments"@).index(
                available_tools(entries, params)[k].input_schema.index("required"@).at(0)->Some_0.as_str()->Some_0,
            ).as_str(),
{
    lemma_listed_schemas(entries, params);
    let tools = available_tools(entries, params);
    assert(tools[k].input_schema == query_schema());
    reveal_strlit("type");
    reveal_strlit("properties");
    reveal_strlit("required");
    reveal_strlit("query");
    reveal_strlit("description");
    reveal_with_fuel(crate::json::key_position, 4);
    assert("type"@ != "properties"@) by {
        assert("type"@[0] != "properties"@[0]);
    }
    assert("type"@ != "required"@) by {
        assert("type"@[0] != "required"@[0]);
    }
    assert("properties"@ != "required"@) by {
        assert("properties"@[0] != "required"@[0]);
    }
}

/// A `tools/list` request is answered with one entry per available tool, in
/// order, each giving the tool's name, description and input schema.
pub proof fn law_tools_list_lists_available_tools(entries: Seq<crate::provider::ProviderInfo>, req: RequestView, params: Map<Seq<char>, Seq<char>>, h: HeadersView, version: Seq<char>)
    requires
        request_method(h, req) == Some("tools/list"@),
    ensures
        match message_outcome(entries, req, params, h, version) {
            OutcomeView::Reply(resp) => resp.error is None && resp.id == req.id && match resp.result {
                Some(r) => match r.get("tools"@) {
                    Some(Json::Array(items)) => items.len() == available_tools(entries, params).len() && forall|k: int|
                        0 <= k < items.len() ==> (#[trigger] items[k]).get("name"@) == Some(
                            Json::Str(available_tools(entries, params)[k].name),
                        ) && items[k].get("description"@) == Some(
                            Json::Str(available_tools(entries, params)[k].description),
                        ) && items[k].get("inputSchema"@) == Some(available_tools(entries, params)[k].input_schema),
                    _ => false,
                },
                None => false,
            },
            _ => false,
        },
{
    reveal_strlit("tools/list");
    reveal_strlit("server/discover");
    reveal_strlit("initialize");
    reveal_strlit("notifications/initialized");
    reveal_strlit("subscriptions/listen");
    reveal_strlit("tools");
    reveal_strlit("name");
    reveal_strlit("description");
    reveal_strlit("inputSchema");
    reveal_with_fuel(crate::json::key_position, 4);
    crate::text::lemma_strings_differ("tools/list"@, "server/discover"@, 0);
    crate::text::lemma_strings_differ("tools/list"@, "initialize"@, 0);
    crate::text::lemma_strings_differ("tools/list"@, "notifications/initialized"@, 0);
    crate::text::lemma_strings_differ("tools/list"@, "subscriptions/listen"@, 0);
    crate::text::lemma_strings_differ("name"@, "description"@, 0);
    crate::text::lemma_strings_differ("name"@, "inputSchema"@, 0);
    crate::text::lemma_strings_differ("description"@, "inputSchema"@, 0);
}

/// The methods the server knows.
pub open spec fn known_methods() -> Seq<Seq<char>> {
    seq![
        "server/discover"@,
        "initialize"@,
        "notifications/initialized"@,
        "subscriptions/listen"@,
        "tools/list"@,
        "tools/call"@,
    ]
}

/// A request for a method the server does not know (or without a method)
/// is answered with the JSON-RPC "method not found" error, -32601, and no
/// result.
pub proof fn law_unknown_method_not_found(entries: Seq<crate::provider::ProviderInfo>, req: RequestView, params: Map<Seq<char>, Seq<char>>, h: HeadersView, version: Seq<char>)
    requires
        !(request_method(h, req) matches Some(m) && known_methods().contains(m)),
    ensures
        match message_outcome(entries, req, params, h, version) {
            OutcomeView::Reply(resp) => resp.id == req.id && resp.result is None && match resp.error {
                Some(e) => e.0 == -32601,
                None => false,
            },
            _ => false,
        },
{
    let m = match request_method(h, req) {
        Some(m) => m,
        None => Seq::<char>::empty(),
    };
    if request_method(h, req) is Some {
        assert(known_methods()[0] == "server/discover"@);
        assert(known_methods()[1] == "initialize"@);
        assert(known_methods()[2] == "notifications/initialized"@);
        assert(known_methods()[3] == "subscriptions/listen"@);
        assert(known_methods()[4] == "tools/list"@);
        assert(known_methods()[5] == "tools/call"@);
    } else {
        reveal_strlit("server/discover");
        reveal_strlit("initialize");
        reveal_strlit("notifications/initialized");
        reveal_strlit("subscriptions/listen");
        reveal_strlit("tools/list");
        reveal_strlit("tools/call");
        crate::text::lemma_strings_differ(m, "server/discover"@, 0);
        crate::text::lemma_strings_differ(m, "initialize"@, 0);
        crate::text::lemma_strings_differ(m, "notifications/initialized"@, 0);
        crate::text::lemma_strings_differ(m, "subscriptions/listen"@, 0);
        crate::text::lemma_strings_differ(m, "tools/list"@, 0);
        crate::text::lemma_strings_differ(m, "tools/call"@, 0);
    }
}

/// The endpoint answers with status 400 exactly for a body that does not
/// parse (code -32700, no id) and for a version it cannot negotiate (code
/// -32020, the request's id), both under the version `2026-07-28`; every
/// other answer has status 200.
pub proof fn law_post_errors(entries: Seq<crate::provider::ProviderInfo>, params: Map<Seq<char>, Seq<char>>, h: HeadersView, body: BodyOutcome)
    ensures
        body is Invalid ==> match post_outcome(entries, params, h, body) {
            PostView::Respond(status, v, resp) => status == 400 && v == "2026-07-28"@ && resp.id is None
                && resp.result is None && match resp.error {
                Some(e) => e.0 == -32700,
                None => false,
            },
            _ => false,
        },
        !(body is Invalid) && negotiate(h, body_request(body)) is Err ==> match post_outcome(entries, params, h, body) {
            PostView::Respond(status, v, resp) => status == 400 && v == "2026-07-28"@ && resp.id == body_request(
                body,
            ).id && resp.result is None && match resp.error {
                Some(e) => e.0 == -32020,
                None => false,
            },
            _ => false,
        },
        !(body is Invalid) && negotiate(h, body_request(body)) is Ok ==> match post_outcome(entries, params, h, body) {
            PostView::Respond(status, _, _) => status == 200,
            _ => true,
        },
{
}

} // verus!
