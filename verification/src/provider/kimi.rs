//! The Kimi (Moonshot AI) web search provider. A search is a conversation:
//! each answer either asks for tool calls, which are answered and the
//! conversation goes on, or holds the final text.
use vstd::prelude::*;
use super::{
    ProviderInfo, SearchProvider, SearchRequest, RequestSpec, HttpReply, WebSearchResult,
    param_or, param_or_default, required_param, required_param_value, reply_outcome, reply_json,
    str_or, no_result_text, text_result,
};
use super::tencentmaas::{chat_message, chat_message_value};
use crate::json::{
    Json, JsonValue, json_str, keys_of, vals_of, object, array, push_field, get_field, index_field,
    element, text_of, items_of, item_views, deep_clone, opt_view, reformat_json, reformatted_json,
};
use crate::params::UrlParams;
use crate::protocol::opt_str;
use crate::text::{is_blank, lemma_strings_differ, str_eq, str_is_blank};

verus! {

/// Kimi web search: a chat completion with Kimi's built-in `$web_search`
/// tool.
pub struct KimiProvider;

impl SearchProvider for KimiProvider {
    open spec fn info(&self) -> ProviderInfo {
        ProviderInfo {
            name: "kimi"@,
            tool_name: "kimi-search"@,
            description: "Kimi AI 联网搜索 (Moonshot)"@,
            required_params: seq!["kimi-apiKey"@],
        }
    }

    fn name(&self) -> (r: &str) {
        "kimi"
    }

    fn tool_name(&self) -> (r: &str) {
        "kimi-search"
    }

    fn description(&self) -> (r: &str) {
        "Kimi AI 联网搜索 (Moonshot)"
    }

    fn required_params(&self) -> (r: Vec<&'static str>) {
        let mut r = Vec::new();
        r.push("kimi-apiKey");
        assert(r@.map_values(|p: &str| p@) =~= seq!["kimi-apiKey"@]);
        r
    }
}

/// The chat completion endpoint.
pub open spec fn kimi_url() -> Seq<char> {
    "https://api.moonshot.cn/v1/chat/completions"@
}

/// The system prompt that opens every conversation.
pub open spec fn kimi_system_prompt() -> Seq<char> {
    "你是 Kimi，由 Moonshot AI 提供的人工智能助手，你更擅长中文和英文的对话。你会为用户提供安全，有帮助，准确的回答。同时，你会拒绝一切涉及恐怖主义，种族歧视，黄色暴力等问题的回答。Moonshot AI 为专有名词，不可翻译成其他语言。"@
}

/// A conversation in progress.
pub struct KimiState {
    pub model: Seq<char>,
    pub api_key: Seq<char>,
    /// The messages sent so far, in order.
    pub messages: Seq<Json>,
    /// The finish reason of the last answer; none before the first.
    pub finish_reason: Option<Seq<char>>,
    /// The text of the final answer; empty until there is one.
    pub result_text: Seq<char>,
}

/// The conversation that a search for `query` starts with, or the error
/// for a missing API key.
pub open spec fn kimi_start(query: Seq<char>, params: Map<Seq<char>, Seq<char>>) -> Result<KimiState, Seq<char>> {
    match required_param(params, "kimi-apiKey"@) {
        Err(e) => Err(e),
        Ok(key) => Ok(
            KimiState {
                model: param_or(params, "kimi-model"@, "moonshot-v1-32k"@),
                api_key: key,
                messages: seq![chat_message("system"@, kimi_system_prompt()), chat_message("user"@, query)],
                finish_reason: None,
                result_text: ""@,
            },
        ),
    }
}

/// Whether the conversation asks for another request: before the first
/// answer, and after an answer that finished with `tool_calls`.
pub open spec fn kimi_continues(s: KimiState) -> bool {
    match s.finish_reason {
        None => true,
        Some(r) => r == "tool_calls"@,
    }
}

/// The built-in web search tool declaration.
pub open spec fn kimi_tools() -> Json {
    Json::Array(
        seq![
            Json::Object(
                seq!["type"@, "function"@],
                seq![
                    Json::Str("builtin_function"@),
                    Json::Object(seq!["name"@], seq![Json::Str("$web_search"@)]),
                ],
            ),
        ],
    )
}

/// The next request of the conversation: the model, the messages so far,
/// the tool declaration, no streaming.
pub open spec fn kimi_request(s: KimiState) -> RequestSpec {
    RequestSpec {
        url: kimi_url(),
        api_key: s.api_key,
        body: Json::Object(
            seq!["model"@, "messages"@, "tools"@, "stream"@],
            seq![Json::Str(s.model), Json::Array(s.messages), kimi_tools(), Json::Bool(false)],
        ),
    }
}

/// The name of the function that a tool call calls (empty where it has
/// none).
pub open spec fn call_function_name(call: Json) -> Seq<char> {
    str_or(call.index("function"@).index("name"@), ""@)
}

/// The arguments of a tool call, as the text it carries (`{}` where it has
/// none).
pub open spec fn call_arguments(call: Json) -> Seq<char> {
    str_or(call.index("function"@).index("arguments"@), "{}"@)
}

/// The text of the answer to a call of `function_name`, given what the
/// call's arguments are when written back as JSON (`None` where they do not
/// parse): those arguments (`{}` where they do not parse) for
/// `$web_search`, an error object for any other tool.
pub open spec fn tool_answer(function_name: Seq<char>, reformatted: Option<Seq<char>>) -> Seq<char> {
    if function_name == "$web_search"@ {
        match reformatted {
            Some(t) => t,
            None => "{}"@,
        }
    } else {
        "{\"error\":\"unknown tool\"}"@
    }
}

/// The `tool` message that answers the tool call `call`, given what its
/// arguments are when written back as JSON.
pub open spec fn tool_reply_with(call: Json, reformatted: Option<Seq<char>>) -> Json {
    Json::Object(
        seq!["role"@, "tool_call_id"@, "name"@, "content"@],
        seq![
            Json::Str("tool"@),
            Json::Str(str_or(call.index("id"@), ""@)),
            Json::Str(call_function_name(call)),
            Json::Str(tool_answer(call_function_name(call), reformatted)),
        ],
    )
}

/// The `tool` message that answers one tool call.
pub open spec fn tool_reply(call: Json) -> Json {
    tool_reply_with(call, reformatted_json(call_arguments(call)))
}

/// The answers to the tool calls of a message, in order.
pub open spec fn tool_replies(calls: Json) -> Seq<Json> {
    match calls.as_array() {
        Some(items) => items.map_values(|c: Json| tool_reply(c)),
        None => Seq::empty(),
    }
}

/// The conversation after the answer `data`: where the first choice
/// finishes with `tool_calls` or its message has tool calls, the message
/// and the answers to its calls are added; otherwise its content is the
/// final text. An answer without choices is an error.
pub open spec fn kimi_step(s: KimiState, data: Json) -> Result<KimiState, Seq<char>> {
    match data.index("choices"@).at(0) {
        None => Err("kimi-search: No choice returned from API"@),
        Some(choice) => {
            let message = choice.index("message"@);
            let reason = str_or(choice.index("finish_reason"@), ""@);
            if reason == "tool_calls"@ || message.get("tool_calls"@) is Some {
                Ok(
                    KimiState {
                        model: s.model,
                        api_key: s.api_key,
                        messages: s.messages.push(message) + tool_replies(message.index("tool_calls"@)),
                        finish_reason: Some(reason),
                        result_text: s.result_text,
                    },
                )
            } else {
                Ok(
                    KimiState {
                        model: s.model,
                        api_key: s.api_key,
                        messages: s.messages,
                        finish_reason: Some(reason),
                        result_text: str_or(message.index("content"@), no_result_text()),
                    },
                )
            }
        },
    }
}

/// The text a finished conversation gives: its final text, or the
/// no-result text where that is blank.
pub open spec fn kimi_text(s: KimiState) -> Seq<char> {
    if is_blank(s.result_text) {
        no_result_text()
    } else {
        s.result_text
    }
}

/// A Kimi search conversation in progress.
#[derive(Debug)]
pub struct KimiSession {
    model: String,
    api_key: String,
    messages: Vec<JsonValue>,
    finish_reason: Option<String>,
    result_text: String,
}

impl View for KimiSession {
    type V = KimiState;

    closed spec fn view(&self) -> KimiState {
        KimiState {
            model: self.model@,
            api_key: self.api_key@,
            messages: item_views(self.messages@),
            finish_reason: match self.finish_reason {
                Some(r) => Some(r@),
                None => None,
            },
            result_text: self.result_text@,
        }
    }
}

/// The text of a string field of a JSON value, or `default` where it is
/// not a string.
fn text_or(v: Option<&JsonValue>, default: &str) -> (r: String)
    ensures
        r@ == str_or(opt_view(v), default@),
{
    match text_of(v) {
        Some(t) => t.clone(),
        None => String::from_str(default),
    }
}

/// The arguments text of the tool call `call`.
pub fn call_arguments_text(call: &JsonValue) -> (r: String)
    ensures
        r@ == call_arguments(call@),
{
    text_or(index_field(index_field(Some(call), "function"), "arguments"), "{}")
}

/// The `tool` message that answers the tool call `call`, given what its
/// arguments are when written back as JSON (`None` where they do not
/// parse).
pub fn tool_reply_from(call: &JsonValue, reformatted: Option<String>) -> (r: JsonValue)
    ensures
        r@ == tool_reply_with(call@, opt_str(reformatted)),
{
    let ghost reformatted_v = opt_str(reformatted);
    let function_name = text_or(index_field(index_field(Some(call), "function"), "name"), "");
    let id = text_or(index_field(Some(call), "id"), "");
    let content = if str_eq(function_name.as_str(), "$web_search") {
        match reformatted {
            Some(t) => t,
            None => String::from_str("{}"),
        }
    } else {
        String::from_str("{\"error\":\"unknown tool\"}")
    };
    assert(content@ == tool_answer(function_name@, reformatted_v));
    let ghost name_v = function_name@;
    let ghost content_v = content@;
    let ghost id_v = id@;
    let mut fields = Vec::new();
    push_field(&mut fields, "role", json_str("tool"));
    push_field(&mut fields, "tool_call_id", JsonValue::Str(id));
    push_field(&mut fields, "name", JsonValue::Str(function_name));
    push_field(&mut fields, "content", JsonValue::Str(content));
    assert(keys_of(fields@) =~= seq!["role"@, "tool_call_id"@, "name"@, "content"@]);
    assert(vals_of(fields@) =~= seq![Json::Str("tool"@), Json::Str(id_v), Json::Str(name_v), Json::Str(content_v)]);
    object(fields)
}

/// The `tool` message that answers the tool call `call`: its arguments are
/// parsed and written back as JSON by `serde_json`.
pub fn tool_reply_value(call: &JsonValue) -> (r: JsonValue)
    ensures
        r@ == tool_reply(call@),
{
    let arguments = call_arguments_text(call);
    tool_reply_from(call, reformat_json(arguments.as_str()))
}

impl KimiProvider {
    /// Starts the conversation that searches for `query` under the URL
    /// parameters `params`.
    pub fn start(&self, query: &str, params: &UrlParams) -> (r: Result<KimiSession, String>)
        ensures
            match r {
                Ok(s) => kimi_start(query@, params@) == Ok::<KimiState, Seq<char>>(s@),
                Err(e) => kimi_start(query@, params@) == Err::<KimiState, Seq<char>>(e@),
            },
    {
        let api_key = match required_param_value(params, "kimi-apiKey") {
            Ok(k) => k,
            Err(e) => {
                return Err(e);
            },
        };
        let model = param_or_default(params, "kimi-model", "moonshot-v1-32k");
        let mut messages = Vec::new();
        messages.push(chat_message_value("system", "你是 Kimi，由 Moonshot AI 提供的人工智能助手，你更擅长中文和英文的对话。你会为用户提供安全，有帮助，准确的回答。同时，你会拒绝一切涉及恐怖主义，种族歧视，黄色暴力等问题的回答。Moonshot AI 为专有名词，不可翻译成其他语言。"));
        messages.push(chat_message_value("user", query));
        let s = KimiSession { model, api_key, messages, finish_reason: None, result_text: String::new() };
        proof {
            reveal_strlit("");
            assert(item_views(s.messages@) =~= seq![chat_message("system"@, kimi_system_prompt()), chat_message("user"@, query@)]);
            assert(s@.result_text =~= ""@);
            assert(s@.model == param_or(params@, "kimi-model"@, "moonshot-v1-32k"@));
            assert(required_param(params@, "kimi-apiKey"@) == Ok::<Seq<char>, Seq<char>>(s@.api_key));
        }
        Ok(s)
    }
}

impl KimiSession {
    /// Whether the conversation needs another request.
    pub fn wants_request(&self) -> (r: bool)
        ensures
            r == kimi_continues(self@),
    {
        match &self.finish_reason {
            None => true,
            Some(r) => str_eq(r.as_str(), "tool_calls"),
        }
    }

    /// The next request of the conversation.
    pub fn request(&self) -> (r: SearchRequest)
        ensures
            r@ == kimi_request(self@),
    {
        let mut messages: Vec<JsonValue> = Vec::new();
        let mut i: usize = 0;
        while i < self.messages.len()
            invariant
                i <= self.messages.len(),
                item_views(messages@) =~= item_views(self.messages@).take(i as int),
            decreases self.messages.len() - i,
        {
            let ghost before = item_views(messages@);
            messages.push(deep_clone(&self.messages[i]));
            assert(item_views(messages@) =~= before.push(self.messages@[i as int]@));
            i += 1;
        }
        assert(item_views(self.messages@).take(self.messages.len() as int) =~= item_views(self.messages@));
        let messages = array(messages);
        let ghost messages_v = messages@;
        let mut function = Vec::new();
        push_field(&mut function, "name", json_str("$web_search"));
        assert(keys_of(function@) =~= seq!["name"@]);
        assert(vals_of(function@) =~= seq![Json::Str("$web_search"@)]);
        let function = object(function);
        let ghost function_v = function@;
        let mut tool = Vec::new();
        push_field(&mut tool, "type", json_str("builtin_function"));
        push_field(&mut tool, "function", function);
        assert(keys_of(tool@) =~= seq!["type"@, "function"@]);
        assert(vals_of(tool@) =~= seq![Json::Str("builtin_function"@), function_v]);
        let tool = object(tool);
        let ghost tool_v = tool@;
        let mut tools = Vec::new();
        tools.push(tool);
        assert(item_views(tools@) =~= seq![tool_v]);
        let tools = array(tools);
        let ghost tools_v = tools@;
        let mut fields = Vec::new();
        push_field(&mut fields, "model", JsonValue::Str(self.model.clone()));
        push_field(&mut fields, "messages", messages);
        push_field(&mut fields, "tools", tools);
        push_field(&mut fields, "stream", JsonValue::Bool(false));
        assert(keys_of(fields@) =~= seq!["model"@, "messages"@, "tools"@, "stream"@]);
        assert(vals_of(fields@) =~= seq![Json::Str(self@.model), messages_v, tools_v, Json::Bool(false)]);
        let body = object(fields);
        SearchRequest {
            url: String::from_str("https://api.moonshot.cn/v1/chat/completions"),
            api_key: self.api_key.clone(),
            body,
        }
    }

    /// Takes in the reply to the last request. Where it fails, or its
    /// answer has no choice, the error is returned and the conversation
    /// stays as it was; otherwise the conversation moves on by `kimi_step`.
    pub fn absorb(&mut self, reply: HttpReply) -> (r: Result<(), String>)
        ensures
            match kimi_absorb(old(self)@, reply) {
                Ok(next) => r is Ok && final(self)@ == next,
                Err(e) => r matches Err(m) && m@ == e && final(self)@ == old(self)@,
            },
    {
        let data = match reply_json("kimi-search", reply) {
            Ok(d) => d,
            Err(e) => {
                return Err(e);
            },
        };
        let choice = match element(index_field(Some(&data), "choices"), 0) {
            Some(c) => c,
            None => {
                return Err(String::from_str("kimi-search: No choice returned from API"));
            },
        };
        let message = index_field(Some(choice), "message");
        let reason = match text_of(index_field(Some(choice), "finish_reason")) {
            Some(r) => r.clone(),
            None => String::new(),
        };
        proof {
            reveal_strlit("");
        }
        let ghost old_messages = item_views(self.messages@);
        let has_calls = get_field(message, "tool_calls").is_some();
        if str_eq(reason.as_str(), "tool_calls") || has_calls {
            let copy = match message {
                Some(m) => deep_clone(m),
                None => JsonValue::Null,
            };
            self.messages.push(copy);
            let ghost with_message = old_messages.push(opt_view(message));
            assert(item_views(self.messages@) =~= with_message);
            let calls = items_of(index_field(message, "tool_calls"));
            match calls {
                Some(calls) => {
                    let ghost calls_v = item_views(calls@);
                    let mut i: usize = 0;
                    while i < calls.len()
                        invariant
                            i <= calls.len(),
                            calls_v == item_views(calls@),
                            self.model == old(self).model,
                            self.api_key == old(self).api_key,
                            self.result_text == old(self).result_text,
                            item_views(self.messages@) =~= with_message + calls_v.take(i as int).map_values(|c: Json| tool_reply(c)),
                        decreases calls.len() - i,
                    {
                        let ghost before = item_views(self.messages@);
                        let reply_msg = tool_reply_value(&calls[i]);
                        self.messages.push(reply_msg);
                        assert(item_views(self.messages@) =~= before.push(tool_reply(calls_v[i as int])));
                        assert(calls_v.take(i + 1).map_values(|c: Json| tool_reply(c)) =~= calls_v.take(i as int).map_values(|c: Json| tool_reply(c)).push(tool_reply(calls_v[i as int])));
                        i += 1;
                    }
                    assert(calls_v.take(calls.len() as int) =~= calls_v);
                },
                None => {
                    assert(item_views(self.messages@) =~= with_message + Seq::<Json>::empty());
                },
            }
        } else {
            self.result_text = match text_of(index_field(message, "content")) {
                Some(t) => t.clone(),
                None => String::from_str("未获取到搜索结果"),
            };
        }
        self.finish_reason = Some(reason);
        proof {
            let choice_v = data@.index("choices"@).at(0)->Some_0;
            assert(choice_v == choice@);
            assert(opt_view(message) == choice_v.index("message"@));
            assert(reason@ == str_or(choice_v.index("finish_reason"@), ""@));
        }
        Ok(())
    }

    /// The search result of the finished conversation.
    pub fn into_result(self) -> (r: WebSearchResult)
        ensures
            r@ == text_result(kimi_text(self@)),
    {
        if str_is_blank(self.result_text.as_str()) {
            WebSearchResult::text("未获取到搜索结果")
        } else {
            WebSearchResult::text(self.result_text.as_str())
        }
    }
}

/// The conversation after the reply `reply`, or the error it gives.
pub open spec fn kimi_absorb(s: KimiState, reply: HttpReply) -> Result<KimiState, Seq<char>> {
    match reply_outcome("kimi-search"@, reply) {
        Err(e) => Err(e),
        Ok(data) => kimi_step(s, data),
    }
}

/// A conversation only grows: each answer keeps the model, the API key and
/// every message sent so far, in order.
pub proof fn law_kimi_history_grows(s: KimiState, data: Json)
    ensures
        kimi_step(s, data) matches Ok(t) ==> t.model == s.model && t.api_key == s.api_key
            && s.messages.len() <= t.messages.len() && t.messages.subrange(0, s.messages.len() as int)
            =~= s.messages,
{
}

/// After an answer, the conversation goes on exactly when the answer
/// finished with `tool_calls`.
pub proof fn law_kimi_continues_only_after_tool_calls(s: KimiState, data: Json)
    ensures
        kimi_step(s, data) matches Ok(t) ==> (kimi_continues(t) <==> str_or(
            data.index("choices"@).at(0)->Some_0.index("finish_reason"@),
            ""@,
        ) == "tool_calls"@),
{
}

/// The text of a finished conversation is never blank.
pub proof fn law_kimi_text_not_blank(s: KimiState)
    ensures
        !is_blank(kimi_text(s)),
{
    reveal_strlit("未获取到搜索结果");
    assert(!crate::text::is_space(no_result_text()[0]));
}

/// An answer whose first choice asks for tool calls adds that choice's
/// message to the conversation unchanged, right after the messages sent so
/// far, followed by one `tool` message per tool call, in order, each
/// answering that call's id.
pub proof fn law_kimi_keeps_the_assistant_message(s: KimiState, data: Json)
    requires
        data.index("choices"@).at(0) is Some,
        str_or(data.index("choices"@).at(0)->Some_0.index("finish_reason"@), ""@) == "tool_calls"@
            || data.index("choices"@).at(0)->Some_0.index("message"@).get("tool_calls"@) is Some,
    ensures
        kimi_step(s, data) is Ok,
        kimi_step(s, data)->Ok_0.messages.len() > s.messages.len(),
        kimi_step(s, data)->Ok_0.messages[s.messages.len() as int] == data.index("choices"@).at(0)->Some_0.index(
            "message"@,
        ),
        data.index("choices"@).at(0)->Some_0.index("message"@).index("tool_calls"@).as_array() matches Some(calls)
            ==> kimi_step(s, data)->Ok_0.messages.len() == s.messages.len() + 1 + calls.len() && forall|j: int|
            0 <= j < calls.len() ==> (#[trigger] kimi_step(s, data)->Ok_0.messages[s.messages.len() + 1 + j]).get(
            "tool_call_id"@,
        ) == Some(Json::Str(str_or(calls[j].index("id"@), ""@))),
{
    reveal_strlit("role");
    reveal_strlit("tool_call_id");
    reveal_with_fuel(crate::json::key_position, 2);
    assert("role"@ != "tool_call_id"@) by {
        assert("role"@[0] != "tool_call_id"@[0]);
    }
    let t = kimi_step(s, data)->Ok_0;
    let message = data.index("choices"@).at(0)->Some_0.index("message"@);
    let with_message = s.messages.push(message);
    assert(t.messages[s.messages.len() as int] == with_message[s.messages.len() as int]);
    if let Some(calls) = message.index("tool_calls"@).as_array() {
        assert forall|j: int| 0 <= j < calls.len() implies (#[trigger] t.messages[s.messages.len() + 1 + j]).get(
            "tool_call_id"@,
        ) == Some(Json::Str(str_or(calls[j].index("id"@), ""@))) by {
            assert(t.messages[s.messages.len() + 1 + j] == tool_replies(message.index("tool_calls"@))[j]);
        }
    }
}

/// A Kimi search starts exactly where the `kimi-apiKey` parameter is
/// present; it uses that key and the model from `kimi-model`
/// (`moonshot-v1-32k` without one), and its conversation ends with the query
/// as a `user` message. Every request of a conversation sends its key, its
/// model and all its messages so far, without streaming.
pub proof fn law_kimi_requests_follow_params(query: Seq<char>, params: Map<Seq<char>, Seq<char>>, s: KimiState)
    ensures
        kimi_start(query, params) is Ok <==> params.contains_key("kimi-apiKey"@),
        kimi_start(query, params) matches Ok(t) ==> t.api_key == params["kimi-apiKey"@] && t.model == (
        if params.contains_key("kimi-model"@) {
            params["kimi-model"@]
        } else {
            "moonshot-v1-32k"@
        }) && t.messages.len() > 0 && t.messages.last().get("role"@) == Some(Json::Str("user"@))
            && t.messages.last().get("content"@) == Some(Json::Str(query)) && kimi_continues(t),
        kimi_request(s).api_key == s.api_key,
        kimi_request(s).body.get("model"@) == Some(Json::Str(s.model)),
        kimi_request(s).body.get("messages"@) == Some(Json::Array(s.messages)),
        kimi_request(s).body.get("stream"@) == Some(Json::Bool(false)),
{
    reveal_strlit("model");
    reveal_strlit("messages");
    reveal_strlit("tools");
    reveal_strlit("stream");
    reveal_strlit("role");
    reveal_strlit("content");
    reveal_with_fuel(crate::json::key_position, 5);
    assert("model"@[0] == 'm' && "messages"@[1] == 'e' && "tools"@[0] == 't' && "stream"@[0] == 's');
    lemma_strings_differ("model"@, "messages"@, 1);
    lemma_strings_differ("model"@, "tools"@, 0);
    lemma_strings_differ("model"@, "stream"@, 0);
    lemma_strings_differ("messages"@, "tools"@, 0);
    lemma_strings_differ("messages"@, "stream"@, 0);
    lemma_strings_differ("tools"@, "stream"@, 0);
    assert("role"@[0] == 'r' && "content"@[0] == 'c');
    lemma_strings_differ("role"@, "content"@, 0);
}

} // verus!
