//! Search providers and the registry that lists them as MCP tools and
//! resolves tool calls to them.
use vstd::prelude::*;
use crate::json::{Json, JsonValue, json_str, item_views, keys_of, vals_of, object, array, push_field, index_field, items_of, text_of};
use crate::params::UrlParams;
use crate::text::{is_blank, str_is_blank, str_eq};

pub mod kimi;
pub mod zai;
pub mod tencentmaas;
pub mod aliyuncs;
pub mod volces;
pub mod laws;
pub mod search;

pub use kimi::KimiProvider;
pub use zai::ZaiProvider;
pub use tencentmaas::TencentmaasProvider;
pub use aliyuncs::AliyuncsProvider;
pub use volces::VolcesProvider;

verus! {

/// What the registry keeps of a provider, as mathematical strings.
pub struct ProviderInfo {
    pub name: Seq<char>,
    pub tool_name: Seq<char>,
    pub description: Seq<char>,
    pub required_params: Seq<Seq<char>>,
}

/// An MCP tool definition, as mathematical values.
pub struct ToolSpec {
    pub name: Seq<char>,
    pub description: Seq<char>,
    pub input_schema: Json,
}

/// `name` has a value in `params` that is not blank.
pub open spec fn has_value(params: Map<Seq<char>, Seq<char>>, name: Seq<char>) -> bool {
    params.contains_key(name) && !is_blank(params[name])
}

/// Every one of `required` has a non-blank value in `params`.
pub open spec fn params_present(required: Seq<Seq<char>>, params: Map<Seq<char>, Seq<char>>) -> bool {
    forall|i: int| 0 <= i < required.len() ==> #[trigger] has_value(params, required[i])
}

/// The input schema of every search tool: an object with a required
/// string property `query`.
pub open spec fn query_schema() -> Json {
    Json::Object(
        seq!["type"@, "properties"@, "required"@],
        seq![
            Json::Str("object"@),
            Json::Object(
                seq!["query"@],
                seq![
                    Json::Object(
                        seq!["type"@, "description"@],
                        seq![Json::Str("string"@), Json::Str("搜索内容"@)],
                    ),
                ],
            ),
            Json::Array(seq![Json::Str("query"@)]),
        ],
    )
}

/// The tool definition of a provider with the given tool name and
/// description.
pub open spec fn tool_definition(tool_name: Seq<char>, description: Seq<char>) -> ToolSpec {
    ToolSpec { name: tool_name, description: description, input_schema: query_schema() }
}

/// An MCP tool definition (`tools/list` entry).
#[derive(Debug)]
pub struct McpTool {
    pub name: String,
    pub description: String,
    pub input_schema: JsonValue,
}

impl View for McpTool {
    type V = ToolSpec;

    open spec fn view(&self) -> ToolSpec {
        ToolSpec { name: self.name@, description: self.description@, input_schema: self.input_schema@ }
    }
}

/// The JSON form of a tool definition (an entry of the `tools/list` reply).
pub open spec fn tool_json(t: ToolSpec) -> Json {
    Json::Object(
        seq!["name"@, "description"@, "inputSchema"@],
        seq![Json::Str(t.name), Json::Str(t.description), t.input_schema],
    )
}

impl McpTool {
    /// The tool definition as JSON: `{"name", "description", "inputSchema"}`.
    pub fn to_json_value(&self) -> (r: JsonValue)
        ensures
            r@ == tool_json(self@),
    {
        let ghost v = self@;
        let mut fields = Vec::new();
        push_field(&mut fields, "name", JsonValue::Str(self.name.clone()));
        push_field(&mut fields, "description", JsonValue::Str(self.description.clone()));
        push_field(&mut fields, "inputSchema", crate::json::deep_clone(&self.input_schema));
        assert(keys_of(fields@) =~= seq!["name"@, "description"@, "inputSchema"@]);
        assert(vals_of(fields@) =~= seq![Json::Str(v.name), Json::Str(v.description), v.input_schema]);
        object(fields)
    }
}

/// The schema of the `query` argument, as a JSON value.
pub fn query_schema_value() -> (r: JsonValue)
    ensures
        r@ == query_schema(),
{
    let mut desc_fields = Vec::new();
    push_field(&mut desc_fields, "type", json_str("string"));
    push_field(&mut desc_fields, "description", json_str("搜索内容"));
    assert(keys_of(desc_fields@) =~= seq!["type"@, "description"@]);
    assert(vals_of(desc_fields@) =~= seq![Json::Str("string"@), Json::Str("搜索内容"@)]);
    let desc = object(desc_fields);
    let mut props_fields = Vec::new();
    push_field(&mut props_fields, "query", desc);
    assert(keys_of(props_fields@) =~= seq!["query"@]);
    assert(vals_of(props_fields@) =~= seq![desc@]);
    let props = object(props_fields);
    let mut required = Vec::new();
    required.push(json_str("query"));
    assert(item_views(required@) =~= seq![Json::Str("query"@)]);
    let req = array(required);
    let mut top = Vec::new();
    push_field(&mut top, "type", json_str("object"));
    push_field(&mut top, "properties", props);
    push_field(&mut top, "required", req);
    assert(keys_of(top@) =~= seq!["type"@, "properties"@, "required"@]);
    assert(vals_of(top@) =~= seq![Json::Str("object"@), props@, req@]);
    object(top)
}

/// One content item of a search result (`{"type": .., "text": ..}`).
#[derive(Debug)]
pub struct ContentItem {
    pub content_type: String,
    pub text: String,
}

/// A search result: the content items handed back to the MCP client.
#[derive(Debug)]
pub struct WebSearchResult {
    pub content: Vec<ContentItem>,
}

/// The (type, text) pairs of content items.
pub open spec fn content_views(items: Seq<ContentItem>) -> Seq<(Seq<char>, Seq<char>)> {
    items.map_values(|c: ContentItem| (c.content_type@, c.text@))
}

impl View for WebSearchResult {
    type V = Seq<(Seq<char>, Seq<char>)>;

    open spec fn view(&self) -> Seq<(Seq<char>, Seq<char>)> {
        content_views(self.content@)
    }
}

/// A result made of one text item.
pub open spec fn text_result(text: Seq<char>) -> Seq<(Seq<char>, Seq<char>)> {
    seq![("text"@, text)]
}

/// The JSON form of one content item.
pub open spec fn content_item_json(item: (Seq<char>, Seq<char>)) -> Json {
    Json::Object(seq!["type"@, "text"@], seq![Json::Str(item.0), Json::Str(item.1)])
}

/// The JSON forms of content items.
pub open spec fn contents_json(items: Seq<(Seq<char>, Seq<char>)>) -> Seq<Json> {
    items.map_values(|item: (Seq<char>, Seq<char>)| content_item_json(item))
}

/// The JSON form of a search result: `{"content": [items...]}`.
pub open spec fn result_json(items: Seq<(Seq<char>, Seq<char>)>) -> Json {
    Json::Object(seq!["content"@], seq![Json::Array(contents_json(items))])
}

impl WebSearchResult {
    /// A result holding the single text item `text`.
    pub fn text(text: &str) -> (r: WebSearchResult)
        ensures
            r@ == text_result(text@),
    {
        let mut content = Vec::new();
        content.push(ContentItem { content_type: String::from_str("text"), text: String::from_str(text) });
        let r = WebSearchResult { content };
        assert(r@ =~= text_result(text@));
        r
    }

    /// The result as a JSON value: `{"content": [{"type": .., "text": ..}, ..]}`.
    pub fn to_json_value(&self) -> (r: JsonValue)
        ensures
            r@ == result_json(self@),
    {
        let mut items: Vec<JsonValue> = Vec::new();
        let mut i: usize = 0;
        while i < self.content.len()
            invariant
                i <= self.content.len(),
                item_views(items@) =~= contents_json(self@).take(i as int),
            decreases self.content.len() - i,
        {
            let mut fields = Vec::new();
            push_field(&mut fields, "type", JsonValue::Str(self.content[i].content_type.clone()));
            push_field(&mut fields, "text", JsonValue::Str(self.content[i].text.clone()));
            assert(keys_of(fields@) =~= seq!["type"@, "text"@]);
            assert(vals_of(fields@) =~= seq![Json::Str(self@[i as int].0), Json::Str(self@[i as int].1)]);
            let item = object(fields);
            let ghost before = item_views(items@);
            items.push(item);
            assert(item_views(items@) =~= before.push(item@));
            assert(contents_json(self@).take(i + 1) =~= contents_json(self@).take(i as int).push(content_item_json(self@[i as int])));
            i += 1;
        }
        assert(contents_json(self@).take(self.content.len() as int) =~= contents_json(self@));
        let arr = array(items);
        let mut top = Vec::new();
        push_field(&mut top, "content", arr);
        assert(keys_of(top@) =~= seq!["content"@]);
        assert(vals_of(top@) =~= seq![Json::Array(contents_json(self@))]);
        object(top)
    }
}

/// A search provider: a named MCP tool that needs some URL parameters.
pub trait SearchProvider: Sized {
    /// What the provider declares of itself.
    spec fn info(&self) -> ProviderInfo;

    /// The provider's identifier, such as `kimi`.
    fn name(&self) -> (r: &str)
        ensures
            r@ == self.info().name,
    ;

    /// The MCP tool name, such as `kimi-search`.
    fn tool_name(&self) -> (r: &str)
        ensures
            r@ == self.info().tool_name,
    ;

    /// The tool's description.
    fn description(&self) -> (r: &str)
        ensures
            r@ == self.info().description,
    ;

    /// The URL parameters that must have non-blank values for the provider
    /// to be offered, such as `kimi-apiKey`.
    fn required_params(&self) -> (r: Vec<&'static str>)
        ensures
            r@.map_values(|p: &str| p@) == self.info().required_params,
    ;

    /// Whether every required parameter has a non-blank value in `params`.
    fn is_available(&self, params: &UrlParams) -> (r: bool)
        ensures
            r == params_present(self.info().required_params, params@),
    {
        params_satisfied(&owned_strings(&self.required_params()), params)
    }

    /// The provider's MCP tool definition.
    fn get_tool_definition(&self) -> (t: McpTool)
        ensures
            t@ == tool_definition(self.info().tool_name, self.info().description),
    {
        McpTool {
            name: String::from_str(self.tool_name()),
            description: String::from_str(self.description()),
            input_schema: query_schema_value(),
        }
    }
}

/// Owned copies of the given strings.
pub fn owned_strings(v: &Vec<&str>) -> (r: Vec<String>)
    ensures
        crate::text::views(r@) == v@.map_values(|p: &str| p@),
{
    let mut r: Vec<String> = Vec::new();
    let mut i: usize = 0;
    while i < v.len()
        invariant
            i <= v.len(),
            crate::text::views(r@) =~= v@.map_values(|p: &str| p@).take(i as int),
        decreases v.len() - i,
    {
        let ghost before = crate::text::views(r@);
        r.push(String::from_str(v[i]));
        assert(crate::text::views(r@) =~= before.push(v@[i as int]@));
        i += 1;
    }
    assert(v@.map_values(|p: &str| p@).take(v.len() as int) =~= v@.map_values(|p: &str| p@));
    r
}

/// Whether each of `required` has a non-blank value in `params`.
pub fn params_satisfied(required: &Vec<String>, params: &UrlParams) -> (r: bool)
    ensures
        r == params_present(crate::text::views(required@), params@),
{
    let ghost req = crate::text::views(required@);
    let mut i: usize = 0;
    while i < required.len()
        invariant
            i <= required.len(),
            req == crate::text::views(required@),
            forall|j: int| 0 <= j < i ==> #[trigger] has_value(params@, req[j]),
        decreases required.len() - i,
    {
        let name = required[i].as_str();
        match params.get(name) {
            Some(v) => {
                if str_is_blank(v.as_str()) {
                    assert(!has_value(params@, req[i as int]));
                    return false;
                }
            },
            None => {
                assert(!has_value(params@, req[i as int]));
                return false;
            },
        }
        i += 1;
    }
    true
}

/// What the registry keeps of a provider.
#[derive(Debug)]
pub struct ProviderEntry {
    pub name: String,
    pub tool_name: String,
    pub description: String,
    pub required_params: Vec<String>,
}

impl View for ProviderEntry {
    type V = ProviderInfo;

    open spec fn view(&self) -> ProviderInfo {
        ProviderInfo {
            name: self.name@,
            tool_name: self.tool_name@,
            description: self.description@,
            required_params: crate::text::views(self.required_params@),
        }
    }
}

impl ProviderEntry {
    /// What `provider` declares of itself.
    pub fn describe<P: SearchProvider>(provider: &P) -> (r: ProviderEntry)
        ensures
            r@ == provider.info(),
    {
        let required = owned_strings(&provider.required_params());
        let r = ProviderEntry {
            name: String::from_str(provider.name()),
            tool_name: String::from_str(provider.tool_name()),
            description: String::from_str(provider.description()),
            required_params: required,
        };
        assert(r@.required_params == provider.info().required_params);
        r
    }

    /// Whether every required parameter has a non-blank value in `params`.
    pub fn is_available(&self, params: &UrlParams) -> (r: bool)
        ensures
            r == params_present(self@.required_params, params@),
    {
        params_satisfied(&self.required_params, params)
    }

    /// The provider's MCP tool definition.
    pub fn get_tool_definition(&self) -> (t: McpTool)
        ensures
            t@ == tool_definition(self@.tool_name, self@.description),
    {
        McpTool {
            name: self.tool_name.clone(),
            description: self.description.clone(),
            input_schema: query_schema_value(),
        }
    }
}

/// Whether `p` is offered under `params`.
pub open spec fn available(p: ProviderInfo, params: Map<Seq<char>, Seq<char>>) -> bool {
    params_present(p.required_params, params)
}

/// The tool definitions of the providers of `entries` that are available,
/// in order.
pub open spec fn listed_tools(entries: Seq<ProviderInfo>, params: Map<Seq<char>, Seq<char>>) -> Seq<ToolSpec>
    decreases entries.len(),
{
    if entries.len() == 0 {
        Seq::empty()
    } else {
        let before = listed_tools(entries.drop_last(), params);
        if available(entries.last(), params) {
            before.push(tool_definition(entries.last().tool_name, entries.last().description))
        } else {
            before
        }
    }
}

/// The first position at or after `i` of an available provider named `name`.
pub open spec fn named_position(entries: Seq<ProviderInfo>, name: Seq<char>, params: Map<Seq<char>, Seq<char>>, i: int) -> Option<int>
    decreases entries.len() - i,
{
    if i < 0 || i >= entries.len() {
        None
    } else if entries[i].name == name && available(entries[i], params) {
        Some(i)
    } else {
        named_position(entries, name, params, i + 1)
    }
}

/// The first position at or after `i` of an available provider whose tool
/// is `tool_name`.
pub open spec fn tool_position(entries: Seq<ProviderInfo>, tool_name: Seq<char>, params: Map<Seq<char>, Seq<char>>, i: int) -> Option<int>
    decreases entries.len() - i,
{
    if i < 0 || i >= entries.len() {
        None
    } else if entries[i].tool_name == tool_name && available(entries[i], params) {
        Some(i)
    } else {
        tool_position(entries, tool_name, params, i + 1)
    }
}

/// The name of the alias tool.
pub open spec fn alias_name() -> Seq<char> {
    "web-search"@
}

/// The parameter that names the provider behind the alias tool.
pub open spec fn default_param() -> Seq<char> {
    "default-search"@
}

/// The provider that the `web-search` alias stands for: the first available
/// provider named by `default-search`.
pub open spec fn alias_target(entries: Seq<ProviderInfo>, params: Map<Seq<char>, Seq<char>>) -> Option<int> {
    if params.contains_key(default_param()) {
        named_position(entries, params[default_param()], params, 0)
    } else {
        None
    }
}

/// The definition of the `web-search` alias tool for provider `p`.
pub open spec fn alias_tool(p: ProviderInfo) -> ToolSpec {
    ToolSpec {
        name: alias_name(),
        description: "网络搜索 (默认使用 "@ + p.name + ")"@,
        input_schema: query_schema(),
    }
}

/// The tools offered under `params`: the available providers' tools, then
/// the `web-search` alias where `default-search` names an available
/// provider.
pub open spec fn available_tools(entries: Seq<ProviderInfo>, params: Map<Seq<char>, Seq<char>>) -> Seq<ToolSpec> {
    match alias_target(entries, params) {
        Some(i) => listed_tools(entries, params).push(alias_tool(entries[i])),
        None => listed_tools(entries, params),
    }
}

/// The tool name that a call of `tool_name` is for: `web-search` stands for
/// `<default-search>-search`.
pub open spec fn resolved_tool_name(tool_name: Seq<char>, params: Map<Seq<char>, Seq<char>>) -> Result<Seq<char>, Seq<char>> {
    if tool_name == alias_name() {
        if params.contains_key(default_param()) {
            Ok(params[default_param()] + "-search"@)
        } else {
            Err("No default-search configured for web-search alias"@)
        }
    } else {
        Ok(tool_name)
    }
}

/// The provider that a call of `tool_name` goes to (its position), or the
/// error message.
pub open spec fn resolve(entries: Seq<ProviderInfo>, tool_name: Seq<char>, params: Map<Seq<char>, Seq<char>>) -> Result<int, Seq<char>> {
    match resolved_tool_name(tool_name, params) {
        Err(e) => Err(e),
        Ok(name) => match tool_position(entries, name, params, 0) {
            Some(i) => Ok(i),
            None => Err("Tool '"@ + tool_name + "' not found or not configured"@),
        },
    }
}

/// The views of tool definitions.
pub open spec fn tool_views(tools: Seq<McpTool>) -> Seq<ToolSpec> {
    tools.map_values(|t: McpTool| t@)
}

/// A resolved tool call: which provider searches for what.
#[derive(Debug)]
pub struct ToolCall {
    /// The provider's name, such as `kimi`.
    pub provider: String,
    /// The provider's tool name, such as `kimi-search`.
    pub tool_name: String,
    /// What to search for.
    pub query: String,
}

/// The providers that the server offers, in registration order.
pub struct ProviderRegistry {
    providers: Vec<ProviderEntry>,
}

impl View for ProviderRegistry {
    type V = Seq<ProviderInfo>;

    closed spec fn view(&self) -> Seq<ProviderInfo> {
        self.providers@.map_values(|e: ProviderEntry| e@)
    }
}

impl ProviderRegistry {
    /// A registry without providers.
    pub fn new() -> (r: ProviderRegistry)
        ensures
            r@ == Seq::<ProviderInfo>::empty(),
    {
        let r = ProviderRegistry { providers: Vec::new() };
        assert(r@ =~= Seq::<ProviderInfo>::empty());
        r
    }

    /// Adds `provider` after the providers already registered.
    pub fn register<P: SearchProvider>(&mut self, provider: P)
        ensures
            final(self)@ == old(self)@.push(provider.info()),
    {
        let entry = ProviderEntry::describe(&provider);
        self.providers.push(entry);
        assert(self@ =~= old(self)@.push(provider.info()));
    }

    /// The tools offered under the URL parameters `params`: each available
    /// provider's tool in registration order, then the `web-search` alias
    /// where `default-search` names an available provider.
    pub fn get_available_tools(&self, params: &UrlParams) -> (r: Vec<McpTool>)
        ensures
            tool_views(r@) == available_tools(self@, params@),
    {
        let ghost entries = self@;
        let mut tools: Vec<McpTool> = Vec::new();
        let mut i: usize = 0;
        while i < self.providers.len()
            invariant
                i <= self.providers.len(),
                entries == self@,
                tool_views(tools@) == listed_tools(entries.take(i as int), params@),
            decreases self.providers.len() - i,
        {
            let ghost before = tool_views(tools@);
            assert(entries.take(i + 1).drop_last() =~= entries.take(i as int));
            assert(entries.take(i + 1).last() == self.providers@[i as int]@);
            if self.providers[i].is_available(params) {
                let def = self.providers[i].get_tool_definition();
                tools.push(def);
                assert(tool_views(tools@) =~= before.push(def@));
            }
            i += 1;
        }
        assert(entries.take(self.providers.len() as int) =~= entries);
        match params.get("default-search") {
            Some(default_search) => {
                let mut k: usize = 0;
                while k < self.providers.len()
                    invariant
                        k <= self.providers.len(),
                        entries == self@,
                        params@.contains_key(default_param()),
                        params@[default_param()] == default_search@,
                        tool_views(tools@) == listed_tools(entries, params@),
                        alias_target(entries, params@) == named_position(entries, default_search@, params@, 0),
                        named_position(entries, default_search@, params@, 0) == named_position(entries, default_search@, params@, k as int),
                    decreases self.providers.len() - k,
                {
                    let p = &self.providers[k];
                    assert(entries[k as int] == p@);
                    if p.name == *default_search && p.is_available(params) {
                        let mut description = String::from_str("网络搜索 (默认使用 ");
                        description.append(p.name.as_str());
                        description.append(")");
                        let alias = McpTool {
                            name: String::from_str("web-search"),
                            description,
                            input_schema: query_schema_value(),
                        };
                        let ghost before = tool_views(tools@);
                        tools.push(alias);
                        assert(tool_views(tools@) =~= before.push(alias_tool(entries[k as int])));
                        return tools;
                    }
                    k += 1;
                }
                tools
            },
            None => tools,
        }
    }

    /// Resolves a call of `tool_name` with `query` to the provider that
    /// serves it: `web-search` stands for `<default-search>-search`, and the
    /// first available provider with that tool name is chosen.
    pub fn call_tool(&self, tool_name: &str, query: &str, params: &UrlParams) -> (r: Result<ToolCall, String>)
        ensures
            match r {
                Ok(call) => resolve(self@, tool_name@, params@) matches Ok(i) && 0 <= i < self@.len() && call.provider@ == self@[i].name
                    && call.tool_name@ == self@[i].tool_name && call.query@ == query@,
                Err(e) => resolve(self@, tool_name@, params@) == Err::<int, Seq<char>>(e@),
            },
    {
        let ghost entries = self@;
        let resolved = if str_eq(tool_name, "web-search") {
            match params.get("default-search") {
                Some(d) => {
                    let mut n = d.clone();
                    n.append("-search");
                    n
                },
                None => {
                    return Err(String::from_str("No default-search configured for web-search alias"));
                },
            }
        } else {
            String::from_str(tool_name)
        };
        assert(resolved_tool_name(tool_name@, params@) == Ok::<Seq<char>, Seq<char>>(resolved@));
        let mut k: usize = 0;
        while k < self.providers.len()
            invariant
                k <= self.providers.len(),
                entries == self@,
                tool_position(entries, resolved@, params@, 0) == tool_position(entries, resolved@, params@, k as int),
                resolved_tool_name(tool_name@, params@) == Ok::<Seq<char>, Seq<char>>(resolved@),
            decreases self.providers.len() - k,
        {
            let p = &self.providers[k];
            assert(entries[k as int] == p@);
            if p.tool_name == resolved && p.is_available(params) {
                return Ok(ToolCall { provider: p.name.clone(), tool_name: p.tool_name.clone(), query: String::from_str(query) });
            }
            k += 1;
        }
        let mut msg = String::from_str("Tool '");
        msg.append(tool_name);
        msg.append("' not found or not configured");
        Err(msg)
    }
}

/// An HTTP POST that a provider asks for: the JSON `body` sent to `url`
/// with `api_key` as bearer token.
#[derive(Debug)]
pub struct SearchRequest {
    pub url: String,
    pub api_key: String,
    pub body: JsonValue,
}

/// A request as mathematical values.
pub struct RequestSpec {
    pub url: Seq<char>,
    pub api_key: Seq<char>,
    pub body: Json,
}

impl View for SearchRequest {
    type V = RequestSpec;

    open spec fn view(&self) -> RequestSpec {
        RequestSpec { url: self.url@, api_key: self.api_key@, body: self.body@ }
    }
}

/// The request that a provider builds: an error where `built` is one,
/// otherwise `built`'s view.
pub open spec fn request_matches(r: Result<SearchRequest, String>, built: Result<RequestSpec, Seq<char>>) -> bool {
    match r {
        Ok(req) => built == Ok::<RequestSpec, Seq<char>>(req@),
        Err(e) => built == Err::<RequestSpec, Seq<char>>(e@),
    }
}

/// The result that a provider gives: an error where `expected` is one,
/// otherwise a single text item.
pub open spec fn result_matches(r: Result<WebSearchResult, String>, expected: Result<Seq<char>, Seq<char>>) -> bool {
    match r {
        Ok(res) => expected matches Ok(t) && res@ == text_result(t),
        Err(e) => expected == Err::<Seq<char>, Seq<char>>(e@),
    }
}

/// What came back of a provider's HTTP request.
#[derive(Debug)]
pub enum HttpReply {
    /// The request failed before an answer came; the error's text.
    Failed(String),
    /// The answer's status was not a success; the answer's body text (empty
    /// where it could not be read).
    Rejected(String),
    /// The answer's body is not JSON; the parse error's text.
    Unreadable(String),
    /// The answer's body, parsed.
    Received(JsonValue),
}

/// The JSON that a reply carries, or the error that a provider with tool
/// name `tool_name` reports for it.
pub open spec fn reply_outcome(tool_name: Seq<char>, reply: HttpReply) -> Result<Json, Seq<char>> {
    match reply {
        HttpReply::Failed(e) => Err("Network error: "@ + e@),
        HttpReply::Rejected(t) => Err(tool_name + " API error: "@ + t@),
        HttpReply::Unreadable(e) => Err("Failed to parse response: "@ + e@),
        HttpReply::Received(data) => Ok(data@),
    }
}

/// The JSON that `reply` carries, or the error that the provider with tool
/// name `tool_name` reports for it.
pub fn reply_json(tool_name: &str, reply: HttpReply) -> (r: Result<JsonValue, String>)
    ensures
        match r {
            Ok(data) => reply_outcome(tool_name@, reply) == Ok::<Json, Seq<char>>(data@),
            Err(e) => reply_outcome(tool_name@, reply) == Err::<Json, Seq<char>>(e@),
        },
{
    match reply {
        HttpReply::Failed(e) => {
            let mut m = String::from_str("Network error: ");
            m.append(e.as_str());
            Err(m)
        },
        HttpReply::Rejected(t) => {
            let mut m = String::from_str(tool_name);
            m.append(" API error: ");
            m.append(t.as_str());
            Err(m)
        },
        HttpReply::Unreadable(e) => {
            let mut m = String::from_str("Failed to parse response: ");
            m.append(e.as_str());
            Err(m)
        },
        HttpReply::Received(data) => Ok(data),
    }
}

/// The value of parameter `name`, or `default` where it has none.
pub open spec fn param_or(params: Map<Seq<char>, Seq<char>>, name: Seq<char>, default: Seq<char>) -> Seq<char> {
    if params.contains_key(name) {
        params[name]
    } else {
        default
    }
}

/// The value of parameter `name`, or `default` where it has none.
pub fn param_or_default(params: &UrlParams, name: &str, default: &str) -> (r: String)
    ensures
        r@ == param_or(params@, name@, default@),
{
    match params.get(name) {
        Some(v) => v.clone(),
        None => String::from_str(default),
    }
}

/// The value of parameter `name` read as a `u32` (as `str::parse` reads
/// it), or `default` where it has none or it does not parse.
pub open spec fn number_param(params: Map<Seq<char>, Seq<char>>, name: Seq<char>, default: u32) -> int {
    if params.contains_key(name) {
        match crate::text::parse_unsigned(params[name], u32::MAX as int) {
            Some(n) => n,
            None => default as int,
        }
    } else {
        default as int
    }
}

/// The value of parameter `name` read as a `u32`, or `default` where it has
/// none or it does not parse.
pub fn number_param_or(params: &UrlParams, name: &str, default: u32) -> (r: u32)
    ensures
        r as int == number_param(params@, name@, default),
{
    match params.get(name) {
        Some(v) => match crate::text::parse_unsigned_upto(v.as_str(), 0xffff_ffff) {
            Some(n) => n as u32,
            None => default,
        },
        None => default,
    }
}

/// The number that a URL parameter gives, as `str::parse::<u32>` reads
/// its value, or `default` where it is missing or does not parse.
pub open spec fn u32_param_or(params: Map<Seq<char>, Seq<char>>, name: Seq<char>, default: int) -> int {
    if params.contains_key(name) && crate::text::parse_unsigned(params[name], u32::MAX as int) is Some {
        crate::text::parse_unsigned(params[name], u32::MAX as int)->Some_0
    } else {
        default
    }
}

/// The value of the required parameter `name`, or the error
/// `Missing <name>`.
pub open spec fn required_param(params: Map<Seq<char>, Seq<char>>, name: Seq<char>) -> Result<Seq<char>, Seq<char>> {
    if params.contains_key(name) {
        Ok(params[name])
    } else {
        Err("Missing "@ + name)
    }
}

/// The value of the required parameter `name`, or the error
/// `Missing <name>`.
pub fn required_param_value(params: &UrlParams, name: &str) -> (r: Result<String, String>)
    ensures
        match r {
            Ok(v) => required_param(params@, name@) == Ok::<Seq<char>, Seq<char>>(v@),
            Err(e) => required_param(params@, name@) == Err::<Seq<char>, Seq<char>>(e@),
        },
{
    match params.get(name) {
        Some(v) => Ok(v.clone()),
        None => {
            let mut m = String::from_str("Missing ");
            m.append(name);
            Err(m)
        },
    }
}

/// The text of a string value, or `default` where it is not a string.
pub open spec fn str_or(j: Json, default: Seq<char>) -> Seq<char> {
    match j.as_str() {
        Some(s) => s,
        None => default,
    }
}

/// The text a search result falls back to when the answer holds none.
pub open spec fn no_result_text() -> Seq<char> {
    "未获取到搜索结果"@
}

/// The non-empty `output_text` text of one content part, if it has one.
pub open spec fn part_text(part: Json) -> Option<Seq<char>> {
    if part.index("type"@).as_str() == Some("output_text"@) {
        match part.index("text"@).as_str() {
            Some(t) => if t.len() > 0 {
                Some(t)
            } else {
                None
            },
            None => None,
        }
    } else {
        None
    }
}

/// The texts of the content parts, in order.
pub open spec fn part_texts(parts: Seq<Json>) -> Seq<Seq<char>>
    decreases parts.len(),
{
    if parts.len() == 0 {
        Seq::empty()
    } else {
        let before = part_texts(parts.drop_last());
        match part_text(parts.last()) {
            Some(t) => before.push(t),
            None => before,
        }
    }
}

/// The texts of one output item: those of its content where it is a
/// `message`.
pub open spec fn output_item_texts(item: Json) -> Seq<Seq<char>> {
    if item.index("type"@).as_str() == Some("message"@) {
        match item.index("content"@).as_array() {
            Some(parts) => part_texts(parts),
            None => Seq::empty(),
        }
    } else {
        Seq::empty()
    }
}

/// The texts of the output items, in order.
pub open spec fn output_items_texts(items: Seq<Json>) -> Seq<Seq<char>>
    decreases items.len(),
{
    if items.len() == 0 {
        Seq::empty()
    } else {
        output_items_texts(items.drop_last()) + output_item_texts(items.last())
    }
}

/// The message texts of a "responses" API answer: the non-empty
/// `output_text` parts of its `message` outputs, in order.
pub open spec fn response_texts(data: Json) -> Seq<Seq<char>> {
    match data.index("output"@).as_array() {
        Some(items) => output_items_texts(items),
        None => Seq::empty(),
    }
}

/// The search text of a "responses" API answer: its message texts joined
/// by newlines, or the no-result text where there are none.
pub open spec fn response_text(data: Json) -> Seq<char> {
    let texts = response_texts(data);
    if texts.len() == 0 {
        no_result_text()
    } else {
        crate::text::join(texts, "\n"@)
    }
}

/// The search text of a "responses" API answer (used by the Volces and
/// Aliyun providers).
pub fn response_text_of(data: &JsonValue) -> (r: String)
    ensures
        r@ == response_text(data@),
{
    let mut texts: Vec<String> = Vec::new();
    let outputs = items_of(index_field(Some(data), "output"));
    match outputs {
        Some(items) => {
            let ghost items_v = item_views(items@);
            let mut i: usize = 0;
            while i < items.len()
                invariant
                    i <= items.len(),
                    items_v == item_views(items@),
                    crate::text::views(texts@) == output_items_texts(items_v.take(i as int)),
                decreases items.len() - i,
            {
                let item = &items[i];
                let ghost before = crate::text::views(texts@);
                let ghost item_texts = output_item_texts(item@);
                assert(items_v.take(i + 1).drop_last() =~= items_v.take(i as int));
                assert(items_v.take(i + 1).last() == item@);
                let kind = text_of(index_field(Some(item), "type"));
                let is_message = match kind {
                    Some(k) => str_eq(k.as_str(), "message"),
                    None => false,
                };
                if is_message {
                    match items_of(index_field(Some(item), "content")) {
                        Some(parts) => {
                            let ghost parts_v = item_views(parts@);
                            assert(item_texts == part_texts(parts_v));
                            let mut k: usize = 0;
                            while k < parts.len()
                                invariant
                                    k <= parts.len(),
                                    parts_v == item_views(parts@),
                                    crate::text::views(texts@) == before + part_texts(parts_v.take(k as int)),
                                decreases parts.len() - k,
                            {
                                let part = &parts[k];
                                let ghost mid = crate::text::views(texts@);
                                assert(parts_v.take(k + 1).drop_last() =~= parts_v.take(k as int));
                                assert(parts_v.take(k + 1).last() == part@);
                                let part_kind = text_of(index_field(Some(part), "type"));
                                let is_text = match part_kind {
                                    Some(pk) => str_eq(pk.as_str(), "output_text"),
                                    None => false,
                                };
                                if is_text {
                                    match text_of(index_field(Some(part), "text")) {
                                        Some(t) => {
                                            if !t.as_str().is_empty() {
                                                texts.push(t.clone());
                                                assert(crate::text::views(texts@) =~= mid.push(t@));
                                            }
                                        },
                                        None => {},
                                    }
                                }
                                assert(crate::text::views(texts@) =~= before + part_texts(parts_v.take(k + 1)));
                                k += 1;
                            }
                            assert(parts_v.take(parts.len() as int) =~= parts_v);
                        },
                        None => {},
                    }
                }
                assert(crate::text::views(texts@) =~= before + item_texts);
                i += 1;
            }
            assert(items_v.take(items.len() as int) =~= items_v);
        },
        None => {},
    }
    if texts.len() == 0 {
        String::from_str("未获取到搜索结果")
    } else {
        crate::text::join_strings(&texts, "\n")
    }
}

/// The providers that the server offers, in order: Kimi, Zhipu, Volcano
/// Engine, Tencent Cloud, Aliyun.
pub open spec fn builtin_providers() -> Seq<ProviderInfo> {
    seq![KimiProvider.info(), ZaiProvider.info(), VolcesProvider.info(), TencentmaasProvider.info(), AliyuncsProvider.info()]
}

/// The registry of all the server's providers.
pub fn build_registry() -> (r: ProviderRegistry)
    ensures
        r@ == builtin_providers(),
{
    let mut registry = ProviderRegistry::new();
    registry.register(KimiProvider);
    registry.register(ZaiProvider);
    registry.register(VolcesProvider);
    registry.register(TencentmaasProvider);
    registry.register(AliyuncsProvider);
    assert(registry@ =~= builtin_providers());
    registry
}

} // verus!
