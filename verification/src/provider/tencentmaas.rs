//! The Tencent Cloud (Hunyuan) web search provider.
use vstd::prelude::*;
use super::{
    ProviderInfo, SearchProvider, SearchRequest, RequestSpec, HttpReply, WebSearchResult,
    param_or, param_or_default, required_param, required_param_value, request_matches,
    result_matches, reply_outcome, reply_json, no_result_text,
};
use crate::json::{Json, JsonValue, json_str, keys_of, vals_of, object, array, push_field, index_field, element, text_of, item_views};
use crate::params::UrlParams;
use crate::text::lemma_strings_differ;

verus! {

/// Tencent web search: a chat completion with web search enabled.
pub struct TencentmaasProvider;

impl SearchProvider for TencentmaasProvider {
    open spec fn info(&self) -> ProviderInfo {
        ProviderInfo {
            name: "tencentmaas"@,
            tool_name: "tencentmaas-search"@,
            description: "腾讯云联网搜索 (混元)"@,
            required_params: seq!["tencentmaas-apiKey"@],
        }
    }

    fn name(&self) -> (r: &str) {
        "tencentmaas"
    }

    fn tool_name(&self) -> (r: &str) {
        "tencentmaas-search"
    }

    fn description(&self) -> (r: &str) {
        "腾讯云联网搜索 (混元)"
    }

    fn required_params(&self) -> (r: Vec<&'static str>) {
        let mut r = Vec::new();
        r.push("tencentmaas-apiKey");
        assert(r@.map_values(|p: &str| p@) =~= seq!["tencentmaas-apiKey"@]);
        r
    }
}

/// The chat completion endpoint.
pub open spec fn tencentmaas_url() -> Seq<char> {
    "https://tokenhub.tencentmaas.com/v1/chat/completions"@
}

/// A chat message with the given role and content.
pub open spec fn chat_message(role: Seq<char>, content: Seq<char>) -> Json {
    Json::Object(seq!["role"@, "content"@], seq![Json::Str(role), Json::Str(content)])
}

/// The request body for `query`: the model, a system and a user message,
/// web search enabled with the chosen search source, no streaming.
pub open spec fn tencentmaas_body(query: Seq<char>, params: Map<Seq<char>, Seq<char>>) -> Json {
    Json::Object(
        seq!["model"@, "messages"@, "web_search_options"@, "stream"@],
        seq![
            Json::Str(param_or(params, "tencentmaas-model"@, "hy3"@)),
            Json::Array(seq![chat_message("system"@, "You are a helpful assistant."@), chat_message("user"@, query)]),
            Json::Object(
                seq!["enable"@, "search_source"@],
                seq![Json::Bool(true), Json::Str(param_or(params, "tencentmaas-search_source"@, "standard"@))],
            ),
            Json::Bool(false),
        ],
    )
}

/// The request for `query`, or the error for a missing API key.
pub open spec fn tencentmaas_request(query: Seq<char>, params: Map<Seq<char>, Seq<char>>) -> Result<RequestSpec, Seq<char>> {
    match required_param(params, "tencentmaas-apiKey"@) {
        Err(e) => Err(e),
        Ok(key) => Ok(RequestSpec { url: tencentmaas_url(), api_key: key, body: tencentmaas_body(query, params) }),
    }
}

/// The text of an answer: the content of the first choice's message, or a
/// no-result text.
pub open spec fn tencentmaas_text(data: Json) -> Seq<char> {
    match data.index("choices"@).at(0) {
        Some(choice) => match choice.index("message"@).index("content"@).as_str() {
            Some(t) => t,
            None => no_result_text(),
        },
        None => no_result_text(),
    }
}

/// A chat message with the given role and content.
pub fn chat_message_value(role: &str, content: &str) -> (r: JsonValue)
    ensures
        r@ == chat_message(role@, content@),
{
    let mut f = Vec::new();
    push_field(&mut f, "role", json_str(role));
    push_field(&mut f, "content", json_str(content));
    assert(keys_of(f@) =~= seq!["role"@, "content"@]);
    assert(vals_of(f@) =~= seq![Json::Str(role@), Json::Str(content@)]);
    object(f)
}

impl TencentmaasProvider {
    /// The request that searches for `query` under the URL parameters
    /// `params`.
    pub fn build_request(&self, query: &str, params: &UrlParams) -> (r: Result<SearchRequest, String>)
        ensures
            request_matches(r, tencentmaas_request(query@, params@)),
    {
        let api_key = match required_param_value(params, "tencentmaas-apiKey") {
            Ok(k) => k,
            Err(e) => {
                return Err(e);
            },
        };
        let model = param_or_default(params, "tencentmaas-model", "hy3");
        let source = param_or_default(params, "tencentmaas-search_source", "standard");
        let mut messages = Vec::new();
        messages.push(chat_message_value("system", "You are a helpful assistant."));
        messages.push(chat_message_value("user", query));
        assert(item_views(messages@) =~= seq![chat_message("system"@, "You are a helpful assistant."@), chat_message("user"@, query@)]);
        let mut options = Vec::new();
        push_field(&mut options, "enable", JsonValue::Bool(true));
        push_field(&mut options, "search_source", JsonValue::Str(source));
        assert(keys_of(options@) =~= seq!["enable"@, "search_source"@]);
        assert(vals_of(options@) =~= seq![Json::Bool(true), Json::Str(param_or(params@, "tencentmaas-search_source"@, "standard"@))]);
        let options = object(options);
        let messages = array(messages);
        let ghost options_v = options@;
        let ghost messages_v = messages@;
        let mut fields = Vec::new();
        push_field(&mut fields, "model", JsonValue::Str(model));
        push_field(&mut fields, "messages", messages);
        push_field(&mut fields, "web_search_options", options);
        push_field(&mut fields, "stream", JsonValue::Bool(false));
        assert(keys_of(fields@) =~= seq!["model"@, "messages"@, "web_search_options"@, "stream"@]);
        assert(vals_of(fields@) =~= seq![Json::Str(param_or(params@, "tencentmaas-model"@, "hy3"@)), messages_v, options_v, Json::Bool(false)]);
        let body = object(fields);
        Ok(SearchRequest { url: String::from_str("https://tokenhub.tencentmaas.com/v1/chat/completions"), api_key, body })
    }

    /// The search result for the reply to the request, or the error for a
    /// failed one.
    pub fn finish(&self, reply: HttpReply) -> (r: Result<WebSearchResult, String>)
        ensures
            result_matches(
                r,
                match reply_outcome("tencentmaas-search"@, reply) {
                    Ok(data) => Ok(tencentmaas_text(data)),
                    Err(e) => Err(e),
                },
            ),
    {
        match reply_json("tencentmaas-search", reply) {
            Ok(data) => {
                let choice = element(index_field(Some(&data), "choices"), 0);
                let text = match choice {
                    Some(c) => text_of(index_field(index_field(Some(c), "message"), "content")),
                    None => None,
                };
                match text {
                    Some(t) => Ok(WebSearchResult::text(t.as_str())),
                    None => Ok(WebSearchResult::text("未获取到搜索结果")),
                }
            },
            Err(e) => Err(e),
        }
    }
}

/// A Tencent Cloud request sends the `tencentmaas-apiKey` parameter as its
/// token and the query as the content of its last message, a `user`
/// message; it enables web search with the source from
/// `tencentmaas-search_source` (`standard` without one) and uses the model
/// from `tencentmaas-model` (`hy3` without one).
pub proof fn law_tencentmaas_request_follows_params(query: Seq<char>, params: Map<Seq<char>, Seq<char>>)
    requires
        params.contains_key("tencentmaas-apiKey"@),
    ensures
        tencentmaas_request(query, params) is Ok,
        tencentmaas_request(query, params)->Ok_0.api_key == params["tencentmaas-apiKey"@],
        tencentmaas_request(query, params)->Ok_0.body.get("model"@) == Some(
            Json::Str(
                if params.contains_key("tencentmaas-model"@) {
                    params["tencentmaas-model"@]
                } else {
                    "hy3"@
                },
            ),
        ),
        tencentmaas_request(query, params)->Ok_0.body.index("messages"@).as_array() matches Some(msgs) ==> msgs.len()
            > 0 && msgs.last().get("role"@) == Some(Json::Str("user"@)) && msgs.last().get("content"@) == Some(
            Json::Str(query),
        ),
        tencentmaas_request(query, params)->Ok_0.body.index("messages"@).as_array() is Some,
        tencentmaas_request(query, params)->Ok_0.body.index("web_search_options"@).get("enable"@) == Some(
            Json::Bool(true),
        ),
        tencentmaas_request(query, params)->Ok_0.body.index("web_search_options"@).get("search_source"@) == Some(
            Json::Str(
                if params.contains_key("tencentmaas-search_source"@) {
                    params["tencentmaas-search_source"@]
                } else {
                    "standard"@
                },
            ),
        ),
{
    reveal_strlit("model");
    reveal_strlit("messages");
    reveal_strlit("web_search_options");
    reveal_strlit("role");
    reveal_strlit("content");
    reveal_strlit("enable");
    reveal_strlit("search_source");
    reveal_with_fuel(crate::json::key_position, 4);
    lemma_strings_differ("model"@, "messages"@, 1);
    lemma_strings_differ("model"@, "web_search_options"@, 0);
    lemma_strings_differ("messages"@, "web_search_options"@, 0);
    lemma_strings_differ("role"@, "content"@, 0);
    lemma_strings_differ("enable"@, "search_source"@, 0);
}

} // verus!
