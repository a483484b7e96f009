//! The Aliyun (Qwen) web search provider.
use vstd::prelude::*;
use super::{
    ProviderInfo, SearchProvider, SearchRequest, RequestSpec, HttpReply, WebSearchResult,
    param_or, param_or_default, required_param, required_param_value, request_matches,
    result_matches, reply_outcome, reply_json, response_text, response_text_of,
};
use crate::json::{Json, JsonValue, json_str, keys_of, vals_of, object, array, push_field, item_views};
use crate::params::UrlParams;
use crate::text::{lemma_strings_differ, strip_trailing, strip_trailing_char};

verus! {

/// Aliyun web search: the "responses" API of the user's workspace with the
/// `web_search` tool.
pub struct AliyuncsProvider;

impl SearchProvider for AliyuncsProvider {
    open spec fn info(&self) -> ProviderInfo {
        ProviderInfo {
            name: "aliyuncs"@,
            tool_name: "aliyuncs-search"@,
            description: "阿里云联网搜索 (通义千问)"@,
            required_params: seq!["aliyuncs-apiKey"@, "aliyuncs-baseUrl"@],
        }
    }

    fn name(&self) -> (r: &str) {
        "aliyuncs"
    }

    fn tool_name(&self) -> (r: &str) {
        "aliyuncs-search"
    }

    fn description(&self) -> (r: &str) {
        "阿里云联网搜索 (通义千问)"
    }

    fn required_params(&self) -> (r: Vec<&'static str>) {
        let mut r = Vec::new();
        r.push("aliyuncs-apiKey");
        r.push("aliyuncs-baseUrl");
        assert(r@.map_values(|p: &str| p@) =~= seq!["aliyuncs-apiKey"@, "aliyuncs-baseUrl"@]);
        r
    }
}

/// The endpoint under the workspace URL `base_url` (its trailing slashes
/// dropped).
pub open spec fn aliyuncs_url(base_url: Seq<char>) -> Seq<char> {
    strip_trailing(base_url, '/') + "/compatible-mode/v1/responses"@
}

/// The request body for `query`: the model, the query as input, and the
/// `web_search` tool.
pub open spec fn aliyuncs_body(query: Seq<char>, params: Map<Seq<char>, Seq<char>>) -> Json {
    Json::Object(
        seq!["model"@, "input"@, "tools"@],
        seq![
            Json::Str(param_or(params, "aliyuncs-model"@, "qwen3.7-flash"@)),
            Json::Str(query),
            Json::Array(seq![Json::Object(seq!["type"@], seq![Json::Str("web_search"@)])]),
        ],
    )
}

/// The request for `query`, or the error for a missing API key or
/// workspace URL (checked in that order).
pub open spec fn aliyuncs_request(query: Seq<char>, params: Map<Seq<char>, Seq<char>>) -> Result<RequestSpec, Seq<char>> {
    match required_param(params, "aliyuncs-apiKey"@) {
        Err(e) => Err(e),
        Ok(key) => match required_param(params, "aliyuncs-baseUrl"@) {
            Err(e) => Err(e),
            Ok(base) => Ok(RequestSpec { url: aliyuncs_url(base), api_key: key, body: aliyuncs_body(query, params) }),
        },
    }
}

impl AliyuncsProvider {
    /// The request that searches for `query` under the URL parameters
    /// `params`.
    pub fn build_request(&self, query: &str, params: &UrlParams) -> (r: Result<SearchRequest, String>)
        ensures
            request_matches(r, aliyuncs_request(query@, params@)),
    {
        let api_key = match required_param_value(params, "aliyuncs-apiKey") {
            Ok(k) => k,
            Err(e) => {
                return Err(e);
            },
        };
        let base_url = match required_param_value(params, "aliyuncs-baseUrl") {
            Ok(b) => b,
            Err(e) => {
                return Err(e);
            },
        };
        let model = param_or_default(params, "aliyuncs-model", "qwen3.7-flash");
        let mut url = strip_trailing_char(base_url.as_str(), '/');
        url.append("/compatible-mode/v1/responses");
        let mut tool = Vec::new();
        push_field(&mut tool, "type", json_str("web_search"));
        assert(keys_of(tool@) =~= seq!["type"@]);
        assert(vals_of(tool@) =~= seq![Json::Str("web_search"@)]);
        let mut tools = Vec::new();
        tools.push(object(tool));
        assert(item_views(tools@) =~= seq![Json::Object(seq!["type"@], seq![Json::Str("web_search"@)])]);
        let tools = array(tools);
        let ghost tools_v = tools@;
        let mut fields = Vec::new();
        push_field(&mut fields, "model", JsonValue::Str(model));
        push_field(&mut fields, "input", json_str(query));
        push_field(&mut fields, "tools", tools);
        assert(keys_of(fields@) =~= seq!["model"@, "input"@, "tools"@]);
        assert(vals_of(fields@) =~= seq![Json::Str(param_or(params@, "aliyuncs-model"@, "qwen3.7-flash"@)), Json::Str(query@), tools_v]);
        let body = object(fields);
        Ok(SearchRequest { url, api_key, body })
    }

    /// The search result for the reply to the request, or the error for a
    /// failed one.
    pub fn finish(&self, reply: HttpReply) -> (r: Result<WebSearchResult, String>)
        ensures
            result_matches(
                r,
                match reply_outcome("aliyuncs-search"@, reply) {
                    Ok(data) => Ok(response_text(data)),
                    Err(e) => Err(e),
                },
            ),
    {
        match reply_json("aliyuncs-search", reply) {
            Ok(data) => {
                let text = response_text_of(&data);
                Ok(WebSearchResult::text(text.as_str()))
            },
            Err(e) => Err(e),
        }
    }
}

/// An Aliyun request goes to the workspace URL from `aliyuncs-baseUrl`
/// (without its trailing slashes) followed by the responses path, sends the
/// `aliyuncs-apiKey` parameter as its token and the query as its input, and
/// uses the model from `aliyuncs-model` (`qwen3.7-flash` without one); it
/// needs both the key and the URL.
pub proof fn law_aliyuncs_request_follows_params(query: Seq<char>, params: Map<Seq<char>, Seq<char>>)
    ensures
        aliyuncs_request(query, params) is Ok <==> params.contains_key("aliyuncs-apiKey"@) && params.contains_key(
            "aliyuncs-baseUrl"@,
        ),
        aliyuncs_request(query, params) is Ok ==> aliyuncs_request(query, params)->Ok_0.api_key
            == params["aliyuncs-apiKey"@] && aliyuncs_request(query, params)->Ok_0.url == strip_trailing(
            params["aliyuncs-baseUrl"@],
            '/',
        ) + "/compatible-mode/v1/responses"@ && aliyuncs_request(query, params)->Ok_0.body.get("input"@) == Some(
            Json::Str(query),
        ) && aliyuncs_request(query, params)->Ok_0.body.get("model"@) == Some(
            Json::Str(
                if params.contains_key("aliyuncs-model"@) {
                    params["aliyuncs-model"@]
                } else {
                    "qwen3.7-flash"@
                },
            ),
        ),
{
    reveal_strlit("model");
    reveal_strlit("input");
    reveal_with_fuel(crate::json::key_position, 3);
    assert("model"@[0] == 'm' && "input"@[0] == 'i');
    lemma_strings_differ("model"@, "input"@, 0);
}

} // verus!
