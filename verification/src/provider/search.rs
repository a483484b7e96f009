//! Carrying out a resolved tool call: which requests its provider makes,
//! and how the replies become the search result.
use vstd::prelude::*;
use super::{
    ToolCall, SearchRequest, RequestSpec, HttpReply, WebSearchResult, reply_outcome,
    result_matches, response_text, builtin_providers,
};
use super::kimi::{KimiProvider, KimiSession, KimiState, kimi_start};
use super::zai::{ZaiProvider, zai_request, zai_text};
use super::volces::{VolcesProvider, volces_request};
use super::tencentmaas::{TencentmaasProvider, tencentmaas_request, tencentmaas_text};
use super::aliyuncs::{AliyuncsProvider, aliyuncs_request};
use crate::json::Json;
use crate::params::UrlParams;
use crate::text::str_eq;

verus! {

/// The providers that search with one request and read one reply.
#[derive(Debug, Clone, Copy)]
pub enum SingleRequestProvider {
    Zai,
    Volces,
    Tencentmaas,
    Aliyuncs,
}

/// The single-request provider called `name`, if there is one.
pub open spec fn single_provider(name: Seq<char>) -> Option<SingleRequestProvider> {
    if name == "zai"@ {
        Some(SingleRequestProvider::Zai)
    } else if name == "volces"@ {
        Some(SingleRequestProvider::Volces)
    } else if name == "tencentmaas"@ {
        Some(SingleRequestProvider::Tencentmaas)
    } else if name == "aliyuncs"@ {
        Some(SingleRequestProvider::Aliyuncs)
    } else {
        None
    }
}

/// The request that provider `p` makes to search for `query`, or its error.
pub open spec fn single_request(p: SingleRequestProvider, query: Seq<char>, params: Map<Seq<char>, Seq<char>>) -> Result<RequestSpec, Seq<char>> {
    match p {
        SingleRequestProvider::Zai => zai_request(query, params),
        SingleRequestProvider::Volces => volces_request(query, params),
        SingleRequestProvider::Tencentmaas => tencentmaas_request(query, params),
        SingleRequestProvider::Aliyuncs => aliyuncs_request(query, params),
    }
}

/// The tool name under which provider `p` reports failed requests.
pub open spec fn single_tool_name(p: SingleRequestProvider) -> Seq<char> {
    match p {
        SingleRequestProvider::Zai => "zai-search"@,
        SingleRequestProvider::Volces => "volces-search"@,
        SingleRequestProvider::Tencentmaas => "tencentmaas-search"@,
        SingleRequestProvider::Aliyuncs => "aliyuncs-search"@,
    }
}

/// The text that provider `p` makes of the answer `data`.
pub open spec fn single_text(p: SingleRequestProvider, data: Json) -> Seq<char> {
    match p {
        SingleRequestProvider::Zai => zai_text(data),
        SingleRequestProvider::Volces => response_text(data),
        SingleRequestProvider::Tencentmaas => tencentmaas_text(data),
        SingleRequestProvider::Aliyuncs => response_text(data),
    }
}

/// The outcome of provider `p`'s search for the reply `reply`: the error
/// of a failed request, otherwise the text read from the answer.
pub open spec fn single_outcome(p: SingleRequestProvider, reply: HttpReply) -> Result<Seq<char>, Seq<char>> {
    match reply_outcome(single_tool_name(p), reply) {
        Ok(data) => Ok(single_text(p, data)),
        Err(e) => Err(e),
    }
}

/// The error for a call whose provider the server does not know.
pub open spec fn unknown_provider_message(tool_name: Seq<char>) -> Seq<char> {
    "Tool '"@ + tool_name + "' not found or not configured"@
}

/// How a tool call is searched.
#[derive(Debug)]
pub enum SearchPlan {
    /// A Kimi conversation: send `request()` while `wants_request()`, hand
    /// each reply to `absorb`, then take `into_result()`.
    Conversation(KimiSession),
    /// One request; `finish_single` reads its reply.
    Single(SingleRequestProvider, SearchRequest),
}

/// Starts the search of a resolved tool call: a Kimi conversation for
/// `kimi`, the single request of the provider otherwise; the provider's
/// error where its parameters fall short, and an error for a provider the
/// server does not know.
pub fn plan_search(call: &ToolCall, params: &UrlParams) -> (r: Result<SearchPlan, String>)
    ensures
        call.provider@ == "kimi"@ ==> match r {
            Ok(SearchPlan::Conversation(s)) => kimi_start(call.query@, params@) == Ok::<KimiState, Seq<char>>(s@),
            Ok(SearchPlan::Single(_, _)) => false,
            Err(e) => kimi_start(call.query@, params@) == Err::<KimiState, Seq<char>>(e@),
        },
        call.provider@ != "kimi"@ ==> match single_provider(call.provider@) {
            Some(p) => match r {
                Ok(SearchPlan::Single(q, req)) => q == p && single_request(p, call.query@, params@) == Ok::<
                    RequestSpec,
                    Seq<char>,
                >(req@),
                Ok(SearchPlan::Conversation(_)) => false,
                Err(e) => single_request(p, call.query@, params@) == Err::<RequestSpec, Seq<char>>(e@),
            },
            None => r matches Err(e) && e@ == unknown_provider_message(call.tool_name@),
        },
{
    proof {
        reveal_strlit("kimi");
        reveal_strlit("zai");
        reveal_strlit("volces");
        reveal_strlit("tencentmaas");
        reveal_strlit("aliyuncs");
    }
    let name = call.provider.as_str();
    let query = call.query.as_str();
    if str_eq(name, "kimi") {
        match KimiProvider.start(query, params) {
            Ok(s) => Ok(SearchPlan::Conversation(s)),
            Err(e) => Err(e),
        }
    } else {
        let (p, built) = if str_eq(name, "zai") {
            (SingleRequestProvider::Zai, ZaiProvider.build_request(query, params))
        } else if str_eq(name, "volces") {
            (SingleRequestProvider::Volces, VolcesProvider.build_request(query, params))
        } else if str_eq(name, "tencentmaas") {
            (SingleRequestProvider::Tencentmaas, TencentmaasProvider.build_request(query, params))
        } else if str_eq(name, "aliyuncs") {
            (SingleRequestProvider::Aliyuncs, AliyuncsProvider.build_request(query, params))
        } else {
            let mut msg = String::from_str("Tool '");
            msg.append(call.tool_name.as_str());
            msg.append("' not found or not configured");
            return Err(msg);
        };
        match built {
            Ok(req) => Ok(SearchPlan::Single(p, req)),
            Err(e) => Err(e),
        }
    }
}

/// The search result that provider `p` makes of the reply to its request.
pub fn finish_single(p: SingleRequestProvider, reply: HttpReply) -> (r: Result<WebSearchResult, String>)
    ensures
        result_matches(r, single_outcome(p, reply)),
{
    match p {
        SingleRequestProvider::Zai => ZaiProvider.finish(reply),
        SingleRequestProvider::Volces => VolcesProvider.finish(reply),
        SingleRequestProvider::Tencentmaas => TencentmaasProvider.finish(reply),
        SingleRequestProvider::Aliyuncs => AliyuncsProvider.finish(reply),
    }
}

/// Every provider of the server can be searched: each is Kimi or a
/// single-request provider, so no call that the registry resolves ends in
/// the unknown-provider error.
pub proof fn law_builtin_providers_searchable()
    ensures
        forall|i: int|
            0 <= i < builtin_providers().len() ==> #[trigger] builtin_providers()[i].name == "kimi"@
                || single_provider(builtin_providers()[i].name) is Some,
{
    reveal_strlit("kimi");
    reveal_strlit("zai");
    reveal_strlit("volces");
    reveal_strlit("tencentmaas");
    reveal_strlit("aliyuncs");
    let e = builtin_providers();
    assert(e[0].name == "kimi"@);
    assert(single_provider(e[1].name) is Some);
    assert(single_provider(e[2].name) is Some);
    assert(single_provider(e[3].name) is Some);
    assert(single_provider(e[4].name) is Some);
}

} // verus!
