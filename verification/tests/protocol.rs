use web_search_mcp::json::{deep_clone, get_field, JsonValue};
use web_search_mcp::params::UrlParams;
use web_search_mcp::protocol::{
    handle_post, mcp_get_reply, negotiate_version, process_message, ready_event, BodyOutcome,
    McpHeaders, MessageOutcome, PostAction, RpcRequest, RpcResponse,
};
use web_search_mcp::provider::{build_registry, ProviderRegistry, WebSearchResult};

fn create_test_state() -> ProviderRegistry {
    build_registry()
}

fn no_headers() -> McpHeaders {
    McpHeaders { protocol_version: None, method: None, name: None, accept: None }
}

fn jstr(s: &str) -> JsonValue {
    JsonValue::Str(s.to_string())
}

fn jnum(s: &str) -> JsonValue {
    JsonValue::Number(s.to_string())
}

fn jobj(fields: Vec<(&str, JsonValue)>) -> JsonValue {
    JsonValue::Object(fields.into_iter().map(|(k, v)| (k.to_string(), v)).collect())
}

fn reply_of(o: MessageOutcome) -> RpcResponse {
    match o {
        MessageOutcome::Reply(r) => r,
        other => panic!("expected a reply, got {:?}", other),
    }
}

fn field<'a>(v: &'a JsonValue, key: &str) -> &'a JsonValue {
    get_field(Some(v), key).expect("missing field")
}

fn first_text(result: &JsonValue) -> JsonValue {
    match field(result, "content") {
        JsonValue::Array(items) => deep_clone(field(&items[0], "text")),
        other => panic!("content is {:?}", other),
    }
}

fn request(id: Option<JsonValue>, method: Option<&str>, params: Option<JsonValue>) -> RpcRequest {
    RpcRequest { id, method: method.map(|m| m.to_string()), params, _meta: None }
}

#[test]
fn test_discover_and_initialize() {
    let state = create_test_state();
    let headers = no_headers();
    let url_params = UrlParams::new();

    let req = request(Some(jnum("1")), Some("initialize"), None);
    let res = reply_of(process_message(&state, req, &url_params, &headers, "2025-11-25"));
    assert_eq!(res.jsonrpc, "2.0");
    assert_eq!(res.id, Some(jnum("1")));
    let result = res.result.unwrap();
    assert_eq!(field(&result, "protocolVersion"), &jstr("2025-11-25"));
    assert_eq!(field(field(&result, "serverInfo"), "name"), &jstr("web-search-mcp"));

    let req = request(Some(jnum("2")), Some("server/discover"), None);
    let res = reply_of(process_message(&state, req, &url_params, &headers, "2026-07-28"));
    assert_eq!(field(&res.result.unwrap(), "protocolVersion"), &jstr("2026-07-28"));
}

#[test]
fn test_notifications_initialized() {
    let state = create_test_state();
    let headers = no_headers();
    let url_params = UrlParams::new();

    let req = request(None, Some("notifications/initialized"), None);
    let res = process_message(&state, req, &url_params, &headers, "2025-11-25");
    assert!(matches!(res, MessageOutcome::Silent));
}

#[test]
fn test_subscriptions_listen() {
    let state = create_test_state();
    let headers = no_headers();
    let url_params = UrlParams::new();

    let req = request(Some(jnum("3")), Some("subscriptions/listen"), None);
    let res = reply_of(process_message(&state, req, &url_params, &headers, "2026-07-28"));
    assert_eq!(field(&res.result.unwrap(), "status"), &jstr("listening"));
}

#[test]
fn test_tools_list_with_query_params() {
    let state = create_test_state();
    let headers = no_headers();
    let mut url_params = UrlParams::new();
    url_params.insert("kimi-apiKey".to_string(), "sk-test".to_string());
    url_params.insert("default-search".to_string(), "kimi".to_string());

    let req = request(Some(jnum("4")), Some("tools/list"), None);
    let res = reply_of(process_message(&state, req, &url_params, &headers, "2025-11-25"));
    match field(&res.result.unwrap(), "tools") {
        JsonValue::Array(tools) => assert_eq!(tools.len(), 2),
        other => panic!("tools is {:?}", other),
    }
}

#[test]
fn test_tools_call_empty_query() {
    let state = create_test_state();
    let headers = no_headers();
    let mut url_params = UrlParams::new();
    url_params.insert("kimi-apiKey".to_string(), "sk-test".to_string());

    let params = jobj(vec![("name", jstr("kimi-search")), ("arguments", jobj(vec![("query", jstr(""))]))]);
    let req = request(Some(jnum("5")), Some("tools/call"), Some(params));
    let res = reply_of(process_message(&state, req, &url_params, &headers, "2025-11-25"));
    assert_eq!(first_text(&res.result.unwrap()), jstr("请输入搜索关键词"));
}

#[test]
fn test_header_fallback_method_and_name() {
    let state = create_test_state();
    let headers = McpHeaders {
        protocol_version: None,
        method: Some("tools/call".to_string()),
        name: Some("kimi-search".to_string()),
        accept: None,
    };
    let url_params = UrlParams::new();

    let params = jobj(vec![("arguments", jobj(vec![("query", jstr(""))]))]);
    let req = request(Some(jnum("6")), None, Some(params));
    let res = reply_of(process_message(&state, req, &url_params, &headers, "2025-11-25"));
    assert_eq!(first_text(&res.result.unwrap()), jstr("请输入搜索关键词"));
}

#[test]
fn test_unknown_method() {
    let state = create_test_state();
    let headers = no_headers();
    let url_params = UrlParams::new();

    let req = request(Some(jnum("7")), Some("invalid/method"), None);
    let res = reply_of(process_message(&state, req, &url_params, &headers, "2025-11-25"));
    let err = res.error.unwrap();
    assert_eq!(err.code, -32601);
    assert_eq!(err.message, "Method 'invalid/method' not found");
}

#[test]
fn test_version_negotiation() {
    let empty_req = RpcRequest::default();

    let headers = no_headers();
    assert_eq!(negotiate_version(&headers, &empty_req).unwrap(), "2025-11-25");

    let discover_req = RpcRequest { method: Some("server/discover".to_string()), ..Default::default() };
    assert_eq!(negotiate_version(&headers, &discover_req).unwrap(), "2026-07-28");

    let mut headers = no_headers();
    headers.protocol_version = Some("2025-11-25".to_string());
    assert_eq!(negotiate_version(&headers, &empty_req).unwrap(), "2025-11-25");

    let mut headers = no_headers();
    headers.protocol_version = Some("2026-07-28".to_string());
    assert_eq!(negotiate_version(&headers, &empty_req).unwrap(), "2026-07-28");

    let mut headers = no_headers();
    headers.protocol_version = Some("9999-01-01".to_string());
    assert!(negotiate_version(&headers, &empty_req).is_err());
}

#[test]
fn unsupported_version_message_lists_supported_ones() {
    let mut headers = no_headers();
    headers.protocol_version = Some("9999-01-01".to_string());
    assert_eq!(
        negotiate_version(&headers, &RpcRequest::default()).unwrap_err(),
        "UnsupportedProtocolVersion: '9999-01-01' is not supported. Supported versions: 2025-11-25, 2026-07-28"
    );
}

#[test]
fn version_from_params_then_meta() {
    let headers = no_headers();
    let req = RpcRequest {
        params: Some(jobj(vec![("protocolVersion", jstr("2026-07-28"))])),
        ..Default::default()
    };
    assert_eq!(negotiate_version(&headers, &req).unwrap(), "2026-07-28");

    let req = RpcRequest {
        _meta: Some(jobj(vec![("io.modelcontextprotocol/protocolVersion", jstr("2026-07-28"))])),
        ..Default::default()
    };
    assert_eq!(negotiate_version(&headers, &req).unwrap(), "2026-07-28");

    // a non-string `protocolVersion` in `_meta` hides the namespaced key
    let req = RpcRequest {
        _meta: Some(jobj(vec![
            ("protocolVersion", jnum("3")),
            ("io.modelcontextprotocol/protocolVersion", jstr("2026-07-28")),
        ])),
        ..Default::default()
    };
    assert_eq!(negotiate_version(&headers, &req).unwrap(), "2025-11-25");

    // the header wins over the body
    let mut headers = no_headers();
    headers.protocol_version = Some("2025-11-25".to_string());
    let req = RpcRequest {
        params: Some(jobj(vec![("protocolVersion", jstr("9999"))])),
        ..Default::default()
    };
    assert_eq!(negotiate_version(&headers, &req).unwrap(), "2025-11-25");
}

#[test]
fn tools_call_errors_and_search() {
    let state = create_test_state();
    let headers = no_headers();
    let mut url_params = UrlParams::new();
    url_params.insert("zai-apiKey".to_string(), "k".to_string());

    // no name anywhere
    let req = request(Some(jnum("8")), Some("tools/call"), None);
    let res = reply_of(process_message(&state, req, &url_params, &headers, "2025-11-25"));
    let err = res.error.unwrap();
    assert_eq!(err.code, -32603);
    assert_eq!(err.message, "Missing tool name in params or Mcp-Name header");

    // an empty name in params does not fall back to the header
    let mut named = no_headers();
    named.name = Some("zai-search".to_string());
    let params = jobj(vec![("name", jstr("")), ("arguments", jobj(vec![("query", jstr("q"))]))]);
    let req = request(Some(jnum("9")), Some("tools/call"), Some(params));
    let res = reply_of(process_message(&state, req, &url_params, &named, "2025-11-25"));
    assert_eq!(res.error.unwrap().code, -32603);

    // unknown tool
    let params = jobj(vec![("name", jstr("kimi-search")), ("arguments", jobj(vec![("query", jstr("q"))]))]);
    let req = request(Some(jnum("10")), Some("tools/call"), Some(params));
    let res = reply_of(process_message(&state, req, &url_params, &headers, "2025-11-25"));
    assert_eq!(res.error.unwrap().message, "Tool 'kimi-search' not found or not configured");

    // a search
    let params = jobj(vec![("name", jstr("zai-search")), ("arguments", jobj(vec![("query", jstr("rust"))]))]);
    let req = request(Some(jstr("abc")), Some("tools/call"), Some(params));
    match process_message(&state, req, &url_params, &headers, "2025-11-25") {
        MessageOutcome::Search(p) => {
            assert_eq!(p.id, Some(jstr("abc")));
            assert_eq!(p.call.provider, "zai");
            assert_eq!(p.call.query, "rust");
            let done = p.complete(Ok(WebSearchResult::text("found")));
            assert_eq!(done.id, Some(jstr("abc")));
            assert_eq!(first_text(&done.result.unwrap()), jstr("found"));
        },
        other => panic!("expected a search, got {:?}", other),
    }
}

#[test]
fn failed_search_answers_internal_error() {
    let state = create_test_state();
    let headers = no_headers();
    let mut url_params = UrlParams::new();
    url_params.insert("zai-apiKey".to_string(), "k".to_string());
    let params = jobj(vec![("name", jstr("zai-search")), ("arguments", jobj(vec![("query", jstr("rust"))]))]);
    let req = request(Some(jnum("11")), Some("tools/call"), Some(params));
    match process_message(&state, req, &url_params, &headers, "2025-11-25") {
        MessageOutcome::Search(p) => {
            let done = p.complete(Err("Network error: down".to_string()));
            let err = done.error.unwrap();
            assert_eq!(err.code, -32603);
            assert_eq!(err.message, "Network error: down");
        },
        other => panic!("expected a search, got {:?}", other),
    }
}

#[test]
fn response_json_leaves_out_absent_parts() {
    let r = RpcResponse::error(None, -32700, "Parse error: x".to_string());
    let j = r.to_json_value();
    assert_eq!(
        j,
        jobj(vec![
            ("jsonrpc", jstr("2.0")),
            ("error", jobj(vec![("code", jnum("-32700")), ("message", jstr("Parse error: x"))])),
        ])
    );
    let r = RpcResponse::success(Some(jnum("7")), jobj(vec![]));
    assert_eq!(r.to_json_value(), jobj(vec![("jsonrpc", jstr("2.0")), ("id", jnum("7")), ("result", jobj(vec![]))]));
}

#[test]
fn post_parse_error_and_bad_version() {
    let state = create_test_state();
    let url_params = UrlParams::new();
    match handle_post(&state, &url_params, &no_headers(), BodyOutcome::Invalid("EOF".to_string())) {
        PostAction::Respond { status, version, response } => {
            assert_eq!(status, 400);
            assert_eq!(version, "2026-07-28");
            assert_eq!(response.id, None);
            let err = response.error.unwrap();
            assert_eq!(err.code, -32700);
            assert_eq!(err.message, "Parse error: EOF");
        },
        other => panic!("{:?}", other),
    }
    let mut headers = no_headers();
    headers.protocol_version = Some("1999-01-01".to_string());
    let req = request(Some(jnum("1")), Some("tools/list"), None);
    match handle_post(&state, &url_params, &headers, BodyOutcome::Parsed(req)) {
        PostAction::Respond { status, response, .. } => {
            assert_eq!(status, 400);
            assert_eq!(response.id, Some(jnum("1")));
            assert_eq!(response.error.unwrap().code, -32020);
        },
        other => panic!("{:?}", other),
    }
}

#[test]
fn post_stream_accept_and_reply() {
    let state = create_test_state();
    let url_params = UrlParams::new();
    let mut headers = no_headers();
    headers.accept = Some("application/json, text/event-stream".to_string());
    let req = request(Some(jnum("1")), Some("subscriptions/listen"), None);
    match handle_post(&state, &url_params, &headers, BodyOutcome::Parsed(req)) {
        PostAction::Stream { version } => assert_eq!(version, "2025-11-25"),
        other => panic!("{:?}", other),
    }
    // without the event-stream accept header, listen is answered as JSON
    let req = request(Some(jnum("2")), Some("subscriptions/listen"), None);
    match handle_post(&state, &url_params, &no_headers(), BodyOutcome::Parsed(req)) {
        PostAction::Respond { status, .. } => assert_eq!(status, 200),
        other => panic!("{:?}", other),
    }
    let req = request(None, Some("notifications/initialized"), None);
    match handle_post(&state, &url_params, &no_headers(), BodyOutcome::Parsed(req)) {
        PostAction::Accepted { version } => assert_eq!(version, "2025-11-25"),
        other => panic!("{:?}", other),
    }
    // an empty body is a request without method: method not found
    match handle_post(&state, &url_params, &no_headers(), BodyOutcome::Empty) {
        PostAction::Respond { status, response, .. } => {
            assert_eq!(status, 200);
            assert_eq!(response.error.unwrap().message, "Method '' not found");
        },
        other => panic!("{:?}", other),
    }
    assert_eq!(ready_event(), "event: ready\ndata: {\"status\":\"listening\"}\n\n");
    assert_eq!(mcp_get_reply().0, 405);
}
