//! The Zhipu (Z.ai) web search provider.
use vstd::prelude::*;
use super::{
    ProviderInfo, SearchProvider, SearchRequest, RequestSpec, HttpReply, WebSearchResult,
    param_or, param_or_default, number_param, number_param_or, required_param,
    required_param_value, request_matches, result_matches, reply_outcome, reply_json, str_or,
    u32_param_or,
};
use crate::json::{Json, JsonValue, json_str, keys_of, vals_of, object, push_field, index_field, items_of, text_of, item_views};
use crate::params::UrlParams;
use crate::text::{decimal, decimal_string, join, join_strings, lemma_strings_differ, views};

verus! {

/// Zhipu web search: the `web_search` API of open.bigmodel.cn.
pub struct ZaiProvider;

impl SearchProvider for ZaiProvider {
    open spec fn info(&self) -> ProviderInfo {
        ProviderInfo {
            name: "zai"@,
            tool_name: "zai-search"@,
            description: "智谱 AI 联网搜索"@,
            required_params: seq!["zai-apiKey"@],
        }
    }

    fn name(&self) -> (r: &str) {
        "zai"
    }

    fn tool_name(&self) -> (r: &str) {
        "zai-search"
    }

    fn description(&self) -> (r: &str) {
        "智谱 AI 联网搜索"
    }

    fn required_params(&self) -> (r: Vec<&'static str>) {
        let mut r = Vec::new();
        r.push("zai-apiKey");
        assert(r@.map_values(|p: &str| p@) =~= seq!["zai-apiKey"@]);
        r
    }
}

/// The search endpoint.
pub open spec fn zai_url() -> Seq<char> {
    "https://open.bigmodel.cn/api/paas/v4/web_search"@
}

/// The request body for `query`: the query, the search engine, no intent
/// recognition, the result count, the recency filter and, where it is not
/// empty, the content size; each option from its URL parameter or default.
pub open spec fn zai_body(query: Seq<char>, params: Map<Seq<char>, Seq<char>>) -> Json {
    let keys = seq!["search_query"@, "search_engine"@, "search_intent"@, "count"@, "search_recency_filter"@];
    let vals = seq![
        Json::Str(query),
        Json::Str(param_or(params, "zai-search_engine"@, "search_std"@)),
        Json::Bool(false),
        Json::Number(decimal(number_param(params, "zai-count"@, 10) as nat)),
        Json::Str(param_or(params, "zai-search_recency_filter"@, "noLimit"@)),
    ];
    let size = param_or(params, "zai-content_size"@, "medium"@);
    if size.len() > 0 {
        Json::Object(keys.push("content_size"@), vals.push(Json::Str(size)))
    } else {
        Json::Object(keys, vals)
    }
}

/// The request for `query`, or the error for a missing API key.
pub open spec fn zai_request(query: Seq<char>, params: Map<Seq<char>, Seq<char>>) -> Result<RequestSpec, Seq<char>> {
    match required_param(params, "zai-apiKey"@) {
        Err(e) => Err(e),
        Ok(key) => Ok(RequestSpec { url: zai_url(), api_key: key, body: zai_body(query, params) }),
    }
}

/// One search hit as text: its number (from 1), title, content and link.
pub open spec fn zai_entry(i: int, hit: Json) -> Seq<char> {
    "["@ + decimal((i + 1) as nat) + "] "@ + str_or(hit.index("title"@), ""@) + "\n"@ + str_or(
        hit.index("content"@),
        ""@,
    ) + "\n来源: "@ + str_or(hit.index("link"@), ""@)
}

/// The search hits as text.
pub open spec fn zai_entries(hits: Seq<Json>) -> Seq<Seq<char>> {
    hits.map(|i: int, hit: Json| zai_entry(i, hit))
}

/// The text returned for an answer: its hits separated by blank lines, or
/// a no-result text where it has none.
pub open spec fn zai_text(data: Json) -> Seq<char> {
    match data.index("search_result"@).as_array() {
        Some(hits) => if hits.len() > 0 {
            join(zai_entries(hits), "\n\n"@)
        } else {
            "未找到搜索结果"@
        },
        None => "未找到搜索结果"@,
    }
}

impl ZaiProvider {
    /// The request that searches for `query` under the URL parameters
    /// `params`.
    pub fn build_request(&self, query: &str, params: &UrlParams) -> (r: Result<SearchRequest, String>)
        ensures
            request_matches(r, zai_request(query@, params@)),
    {
        let api_key = match required_param_value(params, "zai-apiKey") {
            Ok(k) => k,
            Err(e) => {
                return Err(e);
            },
        };
        let engine = param_or_default(params, "zai-search_engine", "search_std");
        let count = number_param_or(params, "zai-count", 10);
        let recency = param_or_default(params, "zai-search_recency_filter", "noLimit");
        let size = param_or_default(params, "zai-content_size", "medium");
        let mut fields = Vec::new();
        push_field(&mut fields, "search_query", json_str(query));
        push_field(&mut fields, "search_engine", JsonValue::Str(engine));
        push_field(&mut fields, "search_intent", JsonValue::Bool(false));
        push_field(&mut fields, "count", JsonValue::Number(decimal_string(count as u64)));
        push_field(&mut fields, "search_recency_filter", JsonValue::Str(recency));
        let ghost keys = keys_of(fields@);
        let ghost vals = vals_of(fields@);
        if !size.as_str().is_empty() {
            push_field(&mut fields, "content_size", JsonValue::Str(size));
        }
        let body = object(fields);
        proof {
            let spec_keys = seq!["search_query"@, "search_engine"@, "search_intent"@, "count"@, "search_recency_filter"@];
            assert(keys =~= spec_keys);
            assert(vals =~= seq![
                Json::Str(query@),
                Json::Str(param_or(params@, "zai-search_engine"@, "search_std"@)),
                Json::Bool(false),
                Json::Number(decimal(number_param(params@, "zai-count"@, 10) as nat)),
                Json::Str(param_or(params@, "zai-search_recency_filter"@, "noLimit"@)),
            ]);
        }
        Ok(SearchRequest { url: String::from_str("https://open.bigmodel.cn/api/paas/v4/web_search"), api_key, body })
    }

    /// The search result for the reply to the request, or the error for a
    /// failed one.
    pub fn finish(&self, reply: HttpReply) -> (r: Result<WebSearchResult, String>)
        ensures
            result_matches(
                r,
                match reply_outcome("zai-search"@, reply) {
                    Ok(data) => Ok(zai_text(data)),
                    Err(e) => Err(e),
                },
            ),
    {
        match reply_json("zai-search", reply) {
            Ok(data) => {
                let text = format_hits(&data);
                Ok(WebSearchResult::text(text.as_str()))
            },
            Err(e) => Err(e),
        }
    }
}

/// The text for an answer of the search API.
pub fn format_hits(data: &JsonValue) -> (r: String)
    ensures
        r@ == zai_text(data@),
{
    match items_of(index_field(Some(data), "search_result")) {
        Some(hits) => {
            if hits.len() == 0 {
                return String::from_str("未找到搜索结果");
            }
            let ghost hits_v = item_views(hits@);
            let mut entries: Vec<String> = Vec::new();
            let mut i: usize = 0;
            while i < hits.len()
                invariant
                    i <= hits.len() <= usize::MAX,
                    hits_v == item_views(hits@),
                    views(entries@) =~= zai_entries(hits_v).take(i as int),
                decreases hits.len() - i,
            {
                let hit = &hits[i];
                proof {
                    reveal_strlit("");
                }
                let title = text_of(index_field(Some(hit), "title"));
                let content = text_of(index_field(Some(hit), "content"));
                let link = text_of(index_field(Some(hit), "link"));
                let mut e = String::from_str("[");
                e.append(decimal_string((i as u64) + 1).as_str());
                e.append("] ");
                let ghost s0 = e@;
                assert(s0 =~= "["@ + decimal((i + 1) as nat) + "] "@);
                match title {
                    Some(t) => e.append(t.as_str()),
                    None => {},
                }
                assert(e@ =~= s0 + str_or(hit@.index("title"@), ""@));
                e.append("\n");
                let ghost s1 = e@;
                match content {
                    Some(c) => e.append(c.as_str()),
                    None => {},
                }
                assert(e@ =~= s1 + str_or(hit@.index("content"@), ""@));
                e.append("\n来源: ");
                let ghost s2 = e@;
                match link {
                    Some(l) => e.append(l.as_str()),
                    None => {},
                }
                assert(e@ =~= s2 + str_or(hit@.index("link"@), ""@));
                proof {
                    assert(hits_v[i as int] == hit@);
                    assert(e@ =~= zai_entry(i as int, hit@));
                }
                let ghost before = views(entries@);
                entries.push(e);
                assert(views(entries@) =~= before.push(zai_entry(i as int, hits_v[i as int])));
                i += 1;
            }
            assert(zai_entries(hits_v).take(hits.len() as int) =~= zai_entries(hits_v));
            join_strings(&entries, "\n\n")
        },
        None => String::from_str("未找到搜索结果"),
    }
}

/// A Zhipu request sends the `zai-apiKey` parameter as its token and the
/// query as `search_query`; each search option comes from its URL
/// parameter (`zai-search_engine`, `zai-count`, `zai-search_recency_filter`,
/// `zai-content_size`) or, without one, from its default, and an empty
/// content size leaves the option out.
pub proof fn law_zai_request_follows_params(query: Seq<char>, params: Map<Seq<char>, Seq<char>>)
    requires
        params.contains_key("zai-apiKey"@),
    ensures
        zai_request(query, params) is Ok,
        zai_request(query, params)->Ok_0.api_key == params["zai-apiKey"@],
        zai_request(query, params)->Ok_0.body.get("search_query"@) == Some(Json::Str(query)),
        zai_request(query, params)->Ok_0.body.get("search_engine"@) == Some(
            Json::Str(
                if params.contains_key("zai-search_engine"@) {
                    params["zai-search_engine"@]
                } else {
                    "search_std"@
                },
            ),
        ),
        zai_request(query, params)->Ok_0.body.get("count"@) == Some(
            Json::Number(decimal(u32_param_or(params, "zai-count"@, 10) as nat)),
        ),
        zai_request(query, params)->Ok_0.body.get("search_recency_filter"@) == Some(
            Json::Str(
                if params.contains_key("zai-search_recency_filter"@) {
                    params["zai-search_recency_filter"@]
                } else {
                    "noLimit"@
                },
            ),
        ),
        ({
            let size = if params.contains_key("zai-content_size"@) {
                params["zai-content_size"@]
            } else {
                "medium"@
            };
            zai_request(query, params)->Ok_0.body.get("content_size"@) == if size.len() > 0 {
                Some(Json::Str(size))
            } else {
                None
            }
        }),
{
    reveal_strlit("search_query");
    reveal_strlit("search_engine");
    reveal_strlit("search_intent");
    reveal_strlit("count");
    reveal_strlit("search_recency_filter");
    reveal_strlit("content_size");
    reveal_with_fuel(crate::json::key_position, 7);
    lemma_strings_differ("search_query"@, "search_engine"@, 0);
    lemma_strings_differ("search_query"@, "search_intent"@, 0);
    lemma_strings_differ("search_query"@, "count"@, 0);
    lemma_strings_differ("search_query"@, "search_recency_filter"@, 0);
    lemma_strings_differ("search_query"@, "content_size"@, 0);
    lemma_strings_differ("search_engine"@, "search_intent"@, 7);
    lemma_strings_differ("search_engine"@, "count"@, 0);
    lemma_strings_differ("search_engine"@, "search_recency_filter"@, 0);
    lemma_strings_differ("search_engine"@, "content_size"@, 0);
    lemma_strings_differ("search_intent"@, "count"@, 0);
    lemma_strings_differ("search_intent"@, "search_recency_filter"@, 0);
    lemma_strings_differ("search_intent"@, "content_size"@, 0);
    lemma_strings_differ("count"@, "search_recency_filter"@, 0);
    lemma_strings_differ("count"@, "content_size"@, 0);
    lemma_strings_differ("search_recency_filter"@, "content_size"@, 0);
}

} // verus!
