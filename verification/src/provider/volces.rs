//! The Volcano Engine (Doubao) web search provider.
use vstd::prelude::*;
use super::{
    ProviderInfo, SearchProvider, SearchRequest, RequestSpec, HttpReply, WebSearchResult,
    param_or, param_or_default, number_param, number_param_or, required_param,
    required_param_value, request_matches, result_matches, reply_outcome, reply_json,
    response_text, response_text_of, u32_param_or,
};
use crate::json::{Json, JsonValue, json_str, keys_of, vals_of, object, array, push_field, item_views};
use crate::params::UrlParams;
use crate::text::{decimal, decimal_string, split_char, split_on, trim, trimmed, views};

verus! {

/// Volcano Engine web search: the "responses" API with the `web_search`
/// tool.
pub struct VolcesProvider;

impl SearchProvider for VolcesProvider {
    open spec fn info(&self) -> ProviderInfo {
        ProviderInfo {
            name: "volces"@,
            tool_name: "volces-search"@,
            description: "火山引擎联网搜索 (豆包)"@,
            required_params: seq!["volces-apiKey"@],
        }
    }

    fn name(&self) -> (r: &str) {
        "volces"
    }

    fn tool_name(&self) -> (r: &str) {
        "volces-search"
    }

    fn description(&self) -> (r: &str) {
        "火山引擎联网搜索 (豆包)"
    }

    fn required_params(&self) -> (r: Vec<&'static str>) {
        let mut r = Vec::new();
        r.push("volces-apiKey");
        assert(r@.map_values(|p: &str| p@) =~= seq!["volces-apiKey"@]);
        r
    }
}

/// The "responses" endpoint.
pub open spec fn volces_url() -> Seq<char> {
    "https://ark.cn-beijing.volces.com/api/v3/responses"@
}

/// The trimmed pieces that are not empty, in order.
pub open spec fn nonempty_trimmed(pieces: Seq<Seq<char>>) -> Seq<Seq<char>>
    decreases pieces.len(),
{
    if pieces.len() == 0 {
        Seq::empty()
    } else {
        let before = nonempty_trimmed(pieces.drop_last());
        let t = trim(pieces.last());
        if t.len() > 0 {
            before.push(t)
        } else {
            before
        }
    }
}

/// The search sources listed in `s`: its comma-separated names, trimmed,
/// empty ones dropped.
pub open spec fn source_names(s: Seq<char>) -> Seq<Seq<char>> {
    nonempty_trimmed(split_char(s, ','))
}

/// The `web_search` tool: keyword and result limits and, where the
/// `volces-sources` parameter is not empty, the extra sources it lists.
pub open spec fn volces_tool(params: Map<Seq<char>, Seq<char>>) -> Json {
    let keys = seq!["type"@, "max_keyword"@, "limit"@];
    let vals = seq![
        Json::Str("web_search"@),
        Json::Number(decimal(number_param(params, "volces-max_keyword"@, 2) as nat)),
        Json::Number(decimal(number_param(params, "volces-limit"@, 10) as nat)),
    ];
    let sources = param_or(params, "volces-sources"@, ""@);
    if sources.len() > 0 {
        Json::Object(
            keys.push("sources"@),
            vals.push(Json::Array(source_names(sources).map_values(|n: Seq<char>| Json::Str(n)))),
        )
    } else {
        Json::Object(keys, vals)
    }
}

/// The request body for `query`: the model, no streaming, the search tool,
/// and the query as the user's input text.
pub open spec fn volces_body(query: Seq<char>, params: Map<Seq<char>, Seq<char>>) -> Json {
    Json::Object(
        seq!["model"@, "stream"@, "tools"@, "input"@],
        seq![
            Json::Str(param_or(params, "volces-model"@, "doubao-seed-2-0-mini-260428"@)),
            Json::Bool(false),
            Json::Array(seq![volces_tool(params)]),
            Json::Array(
                seq![
                    Json::Object(
                        seq!["role"@, "content"@],
                        seq![
                            Json::Str("user"@),
                            Json::Array(
                                seq![
                                    Json::Object(
                                        seq!["type"@, "text"@],
                                        seq![Json::Str("input_text"@), Json::Str(query)],
                                    ),
                                ],
                            ),
                        ],
                    ),
                ],
            ),
        ],
    )
}

/// The request for `query`, or the error for a missing API key.
pub open spec fn volces_request(query: Seq<char>, params: Map<Seq<char>, Seq<char>>) -> Result<RequestSpec, Seq<char>> {
    match required_param(params, "volces-apiKey"@) {
        Err(e) => Err(e),
        Ok(key) => Ok(RequestSpec { url: volces_url(), api_key: key, body: volces_body(query, params) }),
    }
}

/// The search sources listed in `s`.
pub fn source_list(s: &str) -> (r: Vec<String>)
    ensures
        views(r@) == source_names(s@),
{
    let pieces = split_on(s, ',');
    let ghost pv = views(pieces@);
    let mut out: Vec<String> = Vec::new();
    let mut i: usize = 0;
    while i < pieces.len()
        invariant
            i <= pieces.len(),
            pv == views(pieces@),
            views(out@) == nonempty_trimmed(pv.take(i as int)),
        decreases pieces.len() - i,
    {
        let t = trimmed(pieces[i].as_str());
        let ghost before = views(out@);
        assert(pv.take(i + 1).drop_last() =~= pv.take(i as int));
        assert(pv.take(i + 1).last() == pieces@[i as int]@);
        if !t.as_str().is_empty() {
            out.push(t);
            assert(views(out@) =~= before.push(trim(pv[i as int])));
        }
        i += 1;
    }
    assert(pv.take(pieces.len() as int) =~= pv);
    out
}

impl VolcesProvider {
    /// The request that searches for `query` under the URL parameters
    /// `params`.
    pub fn build_request(&self, query: &str, params: &UrlParams) -> (r: Result<SearchRequest, String>)
        ensures
            request_matches(r, volces_request(query@, params@)),
    {
        let api_key = match required_param_value(params, "volces-apiKey") {
            Ok(k) => k,
            Err(e) => {
                return Err(e);
            },
        };
        let model = param_or_default(params, "volces-model", "doubao-seed-2-0-mini-260428");
        let max_keyword = number_param_or(params, "volces-max_keyword", 2);
        let limit = number_param_or(params, "volces-limit", 10);
        let sources = param_or_default(params, "volces-sources", "");
        let mut tool_fields = Vec::new();
        push_field(&mut tool_fields, "type", json_str("web_search"));
        push_field(&mut tool_fields, "max_keyword", JsonValue::Number(decimal_string(max_keyword as u64)));
        push_field(&mut tool_fields, "limit", JsonValue::Number(decimal_string(limit as u64)));
        let ghost base_keys = keys_of(tool_fields@);
        let ghost base_vals = vals_of(tool_fields@);
        assert(base_keys =~= seq!["type"@, "max_keyword"@, "limit"@]);
        assert(base_vals =~= seq![
            Json::Str("web_search"@),
            Json::Number(decimal(number_param(params@, "volces-max_keyword"@, 2) as nat)),
            Json::Number(decimal(number_param(params@, "volces-limit"@, 10) as nat)),
        ]);
        if !sources.as_str().is_empty() {
            let names = source_list(sources.as_str());
            let mut items: Vec<JsonValue> = Vec::new();
            let mut i: usize = 0;
            while i < names.len()
                invariant
                    i <= names.len(),
                    item_views(items@) =~= views(names@).take(i as int).map_values(|n: Seq<char>| Json::Str(n)),
                decreases names.len() - i,
            {
                let ghost before = item_views(items@);
                items.push(JsonValue::Str(names[i].clone()));
                assert(item_views(items@) =~= before.push(Json::Str(names@[i as int]@)));
                i += 1;
            }
            assert(views(names@).take(names.len() as int) =~= views(names@));
            push_field(&mut tool_fields, "sources", array(items));
        }
        let tool = object(tool_fields);
        let ghost tool_v = tool@;
        assert(tool_v =~~= volces_tool(params@));
        let mut tools = Vec::new();
        tools.push(tool);
        assert(item_views(tools@) =~= seq![tool_v]);
        let tools = array(tools);
        let mut text_fields = Vec::new();
        push_field(&mut text_fields, "type", json_str("input_text"));
        push_field(&mut text_fields, "text", json_str(query));
        assert(keys_of(text_fields@) =~= seq!["type"@, "text"@]);
        assert(vals_of(text_fields@) =~= seq![Json::Str("input_text"@), Json::Str(query@)]);
        let text_item = object(text_fields);
        let ghost text_v = text_item@;
        let mut content = Vec::new();
        content.push(text_item);
        assert(item_views(content@) =~= seq![text_v]);
        let content = array(content);
        let ghost content_v = content@;
        let mut message_fields = Vec::new();
        push_field(&mut message_fields, "role", json_str("user"));
        push_field(&mut message_fields, "content", content);
        assert(keys_of(message_fields@) =~= seq!["role"@, "content"@]);
        assert(vals_of(message_fields@) =~= seq![Json::Str("user"@), content_v]);
        let message = object(message_fields);
        let ghost message_v = message@;
        let mut input = Vec::new();
        input.push(message);
        assert(item_views(input@) =~= seq![message_v]);
        let input = array(input);
        let ghost input_v = input@;
        let ghost tools_v = tools@;
        let mut fields = Vec::new();
        push_field(&mut fields, "model", JsonValue::Str(model));
        push_field(&mut fields, "stream", JsonValue::Bool(false));
        push_field(&mut fields, "tools", tools);
        push_field(&mut fields, "input", input);
        assert(keys_of(fields@) =~= seq!["model"@, "stream"@, "tools"@, "input"@]);
        assert(vals_of(fields@) =~= seq![
            Json::Str(param_or(params@, "volces-model"@, "doubao-seed-2-0-mini-260428"@)),
            Json::Bool(false),
            tools_v,
            input_v,
        ]);
        let body = object(fields);
        Ok(SearchRequest { url: String::from_str("https://ark.cn-beijing.volces.com/api/v3/responses"), api_key, body })
    }

    /// The search result for the reply to the request, or the error for a
    /// failed one.
    pub fn finish(&self, reply: HttpReply) -> (r: Result<WebSearchResult, String>)
        ensures
            result_matches(
                r,
                match reply_outcome("volces-search"@, reply) {
                    Ok(data) => Ok(response_text(data)),
                    Err(e) => Err(e),
                },
            ),
    {
        match reply_json("volces-search", reply) {
            Ok(data) => {
                let text = response_text_of(&data);
                Ok(WebSearchResult::text(text.as_str()))
            },
            Err(e) => Err(e),
        }
    }
}

/// The search tool of a Volcano Engine request takes its keyword limit
/// from the `volces-max_keyword` parameter (2 where it is missing or not a
/// `u32`) and its result limit from `volces-limit` (10 likewise).
pub proof fn law_volces_limits_follow_params(query: Seq<char>, params: Map<Seq<char>, Seq<char>>)
    requires
        params.contains_key("volces-apiKey"@),
    ensures
        volces_request(query, params) is Ok,
        volces_request(query, params)->Ok_0.body.index("tools"@).at(0) is Some,
        volces_request(query, params)->Ok_0.body.index("tools"@).at(0)->Some_0.get("max_keyword"@) == Some(
            Json::Number(decimal(u32_param_or(params, "volces-max_keyword"@, 2) as nat)),
        ),
        volces_request(query, params)->Ok_0.body.index("tools"@).at(0)->Some_0.get("limit"@) == Some(
            Json::Number(decimal(u32_param_or(params, "volces-limit"@, 10) as nat)),
        ),
{
    reveal_strlit("model");
    reveal_strlit("stream");
    reveal_strlit("tools");
    reveal_strlit("type");
    reveal_strlit("max_keyword");
    reveal_strlit("limit");
    reveal_with_fuel(crate::json::key_position, 4);
    assert("model"@ != "tools"@) by {
        assert("model"@[0] != "tools"@[0]);
    }
    assert("stream"@ != "tools"@) by {
        assert("stream"@[0] != "tools"@[0]);
    }
    assert("type"@ != "max_keyword"@) by {
        assert("type"@[0] != "max_keyword"@[0]);
    }
    assert("type"@ != "limit"@) by {
        assert("type"@[0] != "limit"@[0]);
    }
    assert("max_keyword"@ != "limit"@) by {
        assert("max_keyword"@[0] != "limit"@[0]);
    }
}

} // verus!
