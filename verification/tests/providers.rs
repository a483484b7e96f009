use web_search_mcp::json::{get_field, JsonValue};
use web_search_mcp::params::UrlParams;
use web_search_mcp::provider::kimi::{call_arguments_text, tool_reply_from, tool_reply_value};
use web_search_mcp::provider::search::{finish_single, plan_search, SearchPlan, SingleRequestProvider};
use web_search_mcp::provider::ToolCall;
use web_search_mcp::provider::{
    AliyuncsProvider, HttpReply, KimiProvider, TencentmaasProvider, VolcesProvider, WebSearchResult,
    ZaiProvider,
};

fn ps(pairs: &[(&str, &str)]) -> UrlParams {
    let mut p = UrlParams::new();
    for (k, v) in pairs {
        p.insert(k.to_string(), v.to_string());
    }
    p
}

fn s(x: &str) -> JsonValue {
    JsonValue::Str(x.to_string())
}

fn n(x: &str) -> JsonValue {
    JsonValue::Number(x.to_string())
}

fn o(fields: Vec<(&str, JsonValue)>) -> JsonValue {
    JsonValue::Object(fields.into_iter().map(|(k, v)| (k.to_string(), v)).collect())
}

fn a(items: Vec<JsonValue>) -> JsonValue {
    JsonValue::Array(items)
}

fn only_text(r: &WebSearchResult) -> &str {
    assert_eq!(r.content.len(), 1);
    assert_eq!(r.content[0].content_type, "text");
    &r.content[0].text
}

#[test]
fn zai_request_defaults_and_options() {
    let req = ZaiProvider.build_request("rust", &ps(&[("zai-apiKey", "k")])).unwrap();
    assert_eq!(req.url, "https://open.bigmodel.cn/api/paas/v4/web_search");
    assert_eq!(req.api_key, "k");
    assert_eq!(
        req.body,
        o(vec![
            ("search_query", s("rust")),
            ("search_engine", s("search_std")),
            ("search_intent", JsonValue::Bool(false)),
            ("count", n("10")),
            ("search_recency_filter", s("noLimit")),
            ("content_size", s("medium")),
        ])
    );
    let req = ZaiProvider
        .build_request(
            "q",
            &ps(&[("zai-apiKey", "k"), ("zai-count", "+25"), ("zai-content_size", ""), ("zai-search_engine", "search_pro")]),
        )
        .unwrap();
    assert_eq!(
        req.body,
        o(vec![
            ("search_query", s("q")),
            ("search_engine", s("search_pro")),
            ("search_intent", JsonValue::Bool(false)),
            ("count", n("25")),
            ("search_recency_filter", s("noLimit")),
        ])
    );
    // a count that does not parse falls back to 10
    let req = ZaiProvider.build_request("q", &ps(&[("zai-apiKey", "k"), ("zai-count", "-3")])).unwrap();
    assert_eq!(get_field(Some(&req.body), "count"), Some(&n("10")));
    assert_eq!(ZaiProvider.build_request("q", &UrlParams::new()).unwrap_err(), "Missing zai-apiKey");
}

#[test]
fn zai_formats_hits() {
    let data = o(vec![(
        "search_result",
        a(vec![
            o(vec![("title", s("T1")), ("content", s("C1")), ("link", s("L1"))]),
            o(vec![("title", s("T2"))]),
        ]),
    )]);
    let r = ZaiProvider.finish(HttpReply::Received(data)).unwrap();
    assert_eq!(only_text(&r), "[1] T1\nC1\n来源: L1\n\n[2] T2\n\n来源: ");
    let r = ZaiProvider.finish(HttpReply::Received(o(vec![("search_result", a(vec![]))]))).unwrap();
    assert_eq!(only_text(&r), "未找到搜索结果");
}

#[test]
fn http_failures_become_errors() {
    assert_eq!(ZaiProvider.finish(HttpReply::Failed("timeout".to_string())).unwrap_err(), "Network error: timeout");
    assert_eq!(
        VolcesProvider.finish(HttpReply::Rejected("bad key".to_string())).unwrap_err(),
        "volces-search API error: bad key"
    );
    assert_eq!(
        TencentmaasProvider.finish(HttpReply::Unreadable("EOF".to_string())).unwrap_err(),
        "Failed to parse response: EOF"
    );
}

#[test]
fn volces_request_with_sources() {
    let req = VolcesProvider
        .build_request(
            "news",
            &ps(&[("volces-apiKey", "v"), ("volces-sources", " douyin, ,toutiao ,"), ("volces-limit", "5")]),
        )
        .unwrap();
    assert_eq!(req.url, "https://ark.cn-beijing.volces.com/api/v3/responses");
    assert_eq!(
        req.body,
        o(vec![
            ("model", s("doubao-seed-2-0-mini-260428")),
            ("stream", JsonValue::Bool(false)),
            (
                "tools",
                a(vec![o(vec![
                    ("type", s("web_search")),
                    ("max_keyword", n("2")),
                    ("limit", n("5")),
                    ("sources", a(vec![s("douyin"), s("toutiao")])),
                ])]),
            ),
            (
                "input",
                a(vec![o(vec![
                    ("role", s("user")),
                    ("content", a(vec![o(vec![("type", s("input_text")), ("text", s("news"))])])),
                ])]),
            ),
        ])
    );
}

#[test]
fn responses_api_text_extraction() {
    let data = o(vec![(
        "output",
        a(vec![
            o(vec![("type", s("web_search_call"))]),
            o(vec![
                ("type", s("message")),
                (
                    "content",
                    a(vec![
                        o(vec![("type", s("output_text")), ("text", s("one"))]),
                        o(vec![("type", s("output_text")), ("text", s(""))]),
                        o(vec![("type", s("refusal")), ("text", s("no"))]),
                        o(vec![("type", s("output_text")), ("text", s("two"))]),
                    ]),
                ),
            ]),
        ]),
    )]);
    let r = AliyuncsProvider.finish(HttpReply::Received(data)).unwrap();
    assert_eq!(only_text(&r), "one\ntwo");
    let r = VolcesProvider.finish(HttpReply::Received(o(vec![]))).unwrap();
    assert_eq!(only_text(&r), "未获取到搜索结果");
}

#[test]
fn aliyuncs_request_url_and_errors() {
    let req = AliyuncsProvider
        .build_request("q", &ps(&[("aliyuncs-apiKey", "k"), ("aliyuncs-baseUrl", "https://ws.maas.aliyuncs.com//")]))
        .unwrap();
    assert_eq!(req.url, "https://ws.maas.aliyuncs.com/compatible-mode/v1/responses");
    assert_eq!(
        req.body,
        o(vec![
            ("model", s("qwen3.7-flash")),
            ("input", s("q")),
            ("tools", a(vec![o(vec![("type", s("web_search"))])])),
        ])
    );
    assert_eq!(AliyuncsProvider.build_request("q", &UrlParams::new()).unwrap_err(), "Missing aliyuncs-apiKey");
    assert_eq!(
        AliyuncsProvider.build_request("q", &ps(&[("aliyuncs-apiKey", "k")])).unwrap_err(),
        "Missing aliyuncs-baseUrl"
    );
}

#[test]
fn tencentmaas_request_and_text() {
    let req = TencentmaasProvider
        .build_request("q", &ps(&[("tencentmaas-apiKey", "t"), ("tencentmaas-search_source", "lite")]))
        .unwrap();
    assert_eq!(req.url, "https://tokenhub.tencentmaas.com/v1/chat/completions");
    assert_eq!(
        req.body,
        o(vec![
            ("model", s("hy3")),
            (
                "messages",
                a(vec![
                    o(vec![("role", s("system")), ("content", s("You are a helpful assistant."))]),
                    o(vec![("role", s("user")), ("content", s("q"))]),
                ]),
            ),
            ("web_search_options", o(vec![("enable", JsonValue::Bool(true)), ("search_source", s("lite"))])),
            ("stream", JsonValue::Bool(false)),
        ])
    );
    let data = o(vec![("choices", a(vec![o(vec![("message", o(vec![("content", s("answer"))]))])]))]);
    assert_eq!(only_text(&TencentmaasProvider.finish(HttpReply::Received(data)).unwrap()), "answer");
    let data = o(vec![("choices", a(vec![]))]);
    assert_eq!(only_text(&TencentmaasProvider.finish(HttpReply::Received(data)).unwrap()), "未获取到搜索结果");
}

#[test]
fn kimi_conversation_with_tool_calls() {
    assert_eq!(KimiProvider.start("q", &UrlParams::new()).unwrap_err(), "Missing kimi-apiKey");
    let mut session = KimiProvider.start("weather", &ps(&[("kimi-apiKey", "k"), ("kimi-model", "kimi-k2")])).unwrap();
    assert!(session.wants_request());
    let req = session.request();
    assert_eq!(req.url, "https://api.moonshot.cn/v1/chat/completions");
    assert_eq!(req.api_key, "k");
    assert_eq!(get_field(Some(&req.body), "model"), Some(&s("kimi-k2")));

    let call = o(vec![
        ("id", s("call-1")),
        ("function", o(vec![("name", s("$web_search")), ("arguments", s("{\"b\": 1, \"a\": \"x\"}"))])),
    ]);
    let message = o(vec![("role", s("assistant")), ("tool_calls", a(vec![call]))]);
    let answer = o(vec![("choices", a(vec![o(vec![("finish_reason", s("tool_calls")), ("message", message)])]))]);
    session.absorb(HttpReply::Received(answer)).unwrap();
    assert!(session.wants_request());
    let req = session.request();
    match get_field(Some(&req.body), "messages") {
        Some(JsonValue::Array(msgs)) => {
            assert_eq!(msgs.len(), 4);
            assert_eq!(get_field(Some(&msgs[3]), "role"), Some(&s("tool")));
            assert_eq!(get_field(Some(&msgs[3]), "tool_call_id"), Some(&s("call-1")));
            // the arguments are written back in serde_json's compact form
            assert_eq!(get_field(Some(&msgs[3]), "content"), Some(&s("{\"a\":\"x\",\"b\":1}")));
        },
        other => panic!("{:?}", other),
    }

    let answer = o(vec![("choices", a(vec![o(vec![("finish_reason", s("stop")), ("message", o(vec![("content", s("sunny"))]))])]))]);
    session.absorb(HttpReply::Received(answer)).unwrap();
    assert!(!session.wants_request());
    assert_eq!(only_text(&session.into_result()), "sunny");
}

#[test]
fn kimi_errors_and_fallbacks() {
    let mut session = KimiProvider.start("q", &ps(&[("kimi-apiKey", "k")])).unwrap();
    assert_eq!(
        session.absorb(HttpReply::Received(o(vec![("choices", a(vec![]))]))).unwrap_err(),
        "kimi-search: No choice returned from API"
    );
    assert!(session.wants_request());
    assert_eq!(
        session.absorb(HttpReply::Rejected("quota".to_string())).unwrap_err(),
        "kimi-search API error: quota"
    );
    let answer = o(vec![("choices", a(vec![o(vec![("finish_reason", s("stop")), ("message", o(vec![("content", s("  "))]))])]))]);
    session.absorb(HttpReply::Received(answer)).unwrap();
    assert_eq!(only_text(&session.into_result()), "未获取到搜索结果");
}

#[test]
fn kimi_tool_reply_for_bad_and_unknown_calls() {
    let bad_args = o(vec![("id", s("c")), ("function", o(vec![("name", s("$web_search")), ("arguments", s("not json"))]))]);
    assert_eq!(get_field(Some(&tool_reply_value(&bad_args)), "content"), Some(&s("{}")));
    let unknown = o(vec![("function", o(vec![("name", s("other"))]))]);
    let reply = tool_reply_value(&unknown);
    assert_eq!(get_field(Some(&reply), "content"), Some(&s("{\"error\":\"unknown tool\"}")));
    assert_eq!(get_field(Some(&reply), "tool_call_id"), Some(&s("")));
}

#[test]
fn web_search_result_json() {
    let r = WebSearchResult::text("hello");
    assert_eq!(r.to_json_value(), o(vec![("content", a(vec![o(vec![("type", s("text")), ("text", s("hello"))])]))]));
}

#[test]
fn search_plans_follow_the_provider() {
    let call = |provider: &str, tool: &str| ToolCall {
        provider: provider.to_string(),
        tool_name: tool.to_string(),
        query: "rust".to_string(),
    };
    let params = ps(&[("kimi-apiKey", "k1"), ("zai-apiKey", "k2")]);
    match plan_search(&call("kimi", "kimi-search"), &params).unwrap() {
        SearchPlan::Conversation(session) => {
            assert!(session.wants_request());
            assert_eq!(session.request().url, "https://api.moonshot.cn/v1/chat/completions");
        }
        other => panic!("expected a conversation, got {:?}", other),
    }
    match plan_search(&call("zai", "zai-search"), &params).unwrap() {
        SearchPlan::Single(SingleRequestProvider::Zai, req) => {
            assert_eq!(req.url, "https://open.bigmodel.cn/api/paas/v4/web_search");
            assert_eq!(req.api_key, "k2");
        }
        other => panic!("expected the zai request, got {:?}", other),
    }
    assert_eq!(
        plan_search(&call("volces", "volces-search"), &params).unwrap_err(),
        "Missing volces-apiKey"
    );
    assert_eq!(
        plan_search(&call("other", "other-search"), &params).unwrap_err(),
        "Tool 'other-search' not found or not configured"
    );
    let r = finish_single(
        SingleRequestProvider::Tencentmaas,
        HttpReply::Received(o(vec![(
            "choices",
            a(vec![o(vec![("message", o(vec![("content", s("answer"))]))])]),
        )])),
    )
    .unwrap();
    assert_eq!(only_text(&r), "answer");
    assert_eq!(
        finish_single(SingleRequestProvider::Aliyuncs, HttpReply::Rejected("denied".to_string())).unwrap_err(),
        "aliyuncs-search API error: denied"
    );
}

#[test]
fn kimi_tool_reply_from_given_arguments() {
    let call = o(vec![("id", s("c7")), ("function", o(vec![("name", s("$web_search")), ("arguments", s("{ }"))]))]);
    assert_eq!(call_arguments_text(&call), "{ }");
    let reply = tool_reply_from(&call, Some("{\"q\":1}".to_string()));
    assert_eq!(
        reply,
        o(vec![("role", s("tool")), ("tool_call_id", s("c7")), ("name", s("$web_search")), ("content", s("{\"q\":1}"))])
    );
    assert_eq!(get_field(Some(&tool_reply_from(&call, None)), "content"), Some(&s("{}")));
    let no_args = o(vec![("function", o(vec![("name", s("$web_search"))]))]);
    assert_eq!(call_arguments_text(&no_args), "{}");
}
