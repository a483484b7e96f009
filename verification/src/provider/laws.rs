//! Properties of tool listing and tool resolution that hold across calls.
use vstd::prelude::*;
use super::{
    ProviderInfo, ToolSpec, available, listed_tools, available_tools, alias_target, alias_name,
    default_param, named_position, tool_position, resolve, resolved_tool_name, tool_definition,
    builtin_providers, part_text, part_texts, output_item_texts, output_items_texts, response_texts,
    response_text, no_result_text, alias_tool, has_value,
};
use crate::json::Json;
use crate::text::join;

verus! {

/// Every provider's tool is named `<name>-search`, and none is named like
/// the `web-search` alias.
pub open spec fn conventional(entries: Seq<ProviderInfo>) -> bool {
    forall|i: int|
        0 <= i < entries.len() ==> (#[trigger] entries[i]).tool_name == entries[i].name + "-search"@
            && entries[i].tool_name != alias_name()
}

/// The position that `tool_position` finds holds an available provider
/// with that tool name.
pub proof fn lemma_tool_position_sound(entries: Seq<ProviderInfo>, name: Seq<char>, params: Map<Seq<char>, Seq<char>>, start: int)
    ensures
        tool_position(entries, name, params, start) matches Some(i) ==> start <= i < entries.len()
            && entries[i].tool_name == name && available(entries[i], params),
    decreases entries.len() - start,
{
    if 0 <= start < entries.len() && !(entries[start].tool_name == name && available(entries[start], params)) {
        lemma_tool_position_sound(entries, name, params, start + 1);
    }
}

proof fn lemma_tool_position_found(entries: Seq<ProviderInfo>, name: Seq<char>, params: Map<Seq<char>, Seq<char>>, start: int, i: int)
    requires
        0 <= start <= i < entries.len(),
        entries[i].tool_name == name,
        available(entries[i], params),
    ensures
        tool_position(entries, name, params, start) is Some,
    decreases i - start,
{
    if start < i && !(entries[start].tool_name == name && available(entries[start], params)) {
        lemma_tool_position_found(entries, name, params, start + 1, i);
    }
}

proof fn lemma_named_position_sound(entries: Seq<ProviderInfo>, name: Seq<char>, params: Map<Seq<char>, Seq<char>>, start: int)
    ensures
        named_position(entries, name, params, start) matches Some(i) ==> start <= i < entries.len()
            && entries[i].name == name && available(entries[i], params),
    decreases entries.len() - start,
{
    if 0 <= start < entries.len() && !(entries[start].name == name && available(entries[start], params)) {
        lemma_named_position_sound(entries, name, params, start + 1);
    }
}

proof fn lemma_listed_from_available(entries: Seq<ProviderInfo>, params: Map<Seq<char>, Seq<char>>, k: int)
    requires
        0 <= k < listed_tools(entries, params).len(),
    ensures
        exists|i: int|
            0 <= i < entries.len() && available(entries[i], params) && #[trigger] listed_tools(entries, params)[k]
                == tool_definition(entries[i].tool_name, entries[i].description),
    decreases entries.len(),
{
    let before = listed_tools(entries.drop_last(), params);
    if k < before.len() {
        lemma_listed_from_available(entries.drop_last(), params, k);
        let i = choose|i: int|
            0 <= i < entries.drop_last().len() && available(entries.drop_last()[i], params)
                && #[trigger] listed_tools(entries.drop_last(), params)[k] == tool_definition(
                entries.drop_last()[i].tool_name,
                entries.drop_last()[i].description,
            );
        assert(entries.drop_last()[i] == entries[i]);
        assert(listed_tools(entries, params)[k] == before[k]);
    } else {
        let i = entries.len() - 1;
        assert(listed_tools(entries, params)[k] == tool_definition(entries[i].tool_name, entries[i].description));
    }
}

/// Calling the `web-search` alias is calling `<default-search>-search`:
/// where `default-search` is set, both calls go to the same provider, or
/// both fail.
pub proof fn law_alias_calls_default(entries: Seq<ProviderInfo>, params: Map<Seq<char>, Seq<char>>)
    requires
        params.contains_key(default_param()),
    ensures
        match (
            resolve(entries, alias_name(), params),
            resolve(entries, params[default_param()] + "-search"@, params),
        ) {
            (Ok(i), Ok(j)) => i == j,
            (Err(_), Err(_)) => true,
            _ => false,
        },
{
    let target = params[default_param()] + "-search"@;
    assert(resolved_tool_name(alias_name(), params) == Ok::<Seq<char>, Seq<char>>(target));
    assert(resolved_tool_name(target, params) == Ok::<Seq<char>, Seq<char>>(target));
}

/// Every tool that is listed can be called: where the providers follow the
/// naming convention, each listed tool, the alias included, resolves to an
/// available provider.
pub proof fn law_listed_tools_callable(entries: Seq<ProviderInfo>, params: Map<Seq<char>, Seq<char>>, k: int)
    requires
        conventional(entries),
        0 <= k < available_tools(entries, params).len(),
    ensures
        resolve(entries, available_tools(entries, params)[k].name, params) matches Ok(i)
            && 0 <= i < entries.len() && available(entries[i], params),
{
    let tools = available_tools(entries, params);
    let listed = listed_tools(entries, params);
    let name = tools[k].name;
    if k < listed.len() {
        lemma_listed_from_available(entries, params, k);
        let i = choose|i: int|
            0 <= i < entries.len() && available(entries[i], params) && #[trigger] listed[k]
                == tool_definition(entries[i].tool_name, entries[i].description);
        assert(tools[k] == listed[k]);
        assert(entries[i].tool_name != alias_name());
        assert(resolved_tool_name(name, params) == Ok::<Seq<char>, Seq<char>>(name));
        lemma_tool_position_found(entries, name, params, 0, i);
        lemma_tool_position_sound(entries, name, params, 0);
    } else {
        let i = alias_target(entries, params)->Some_0;
        lemma_named_position_sound(entries, params[default_param()], params, 0);
        assert(name == alias_name());
        let target = params[default_param()] + "-search"@;
        assert(entries[i].tool_name == target);
        assert(resolved_tool_name(name, params) == Ok::<Seq<char>, Seq<char>>(target));
        lemma_tool_position_found(entries, target, params, 0, i);
        lemma_tool_position_sound(entries, target, params, 0);
    }
}

/// The server's own providers follow the naming convention.
pub proof fn law_builtin_providers_conventional()
    ensures
        conventional(builtin_providers()),
{
    reveal_strlit("kimi");
    reveal_strlit("kimi-search");
    reveal_strlit("zai");
    reveal_strlit("zai-search");
    reveal_strlit("volces");
    reveal_strlit("volces-search");
    reveal_strlit("tencentmaas");
    reveal_strlit("tencentmaas-search");
    reveal_strlit("aliyuncs");
    reveal_strlit("aliyuncs-search");
    reveal_strlit("-search");
    reveal_strlit("web-search");
    let e = builtin_providers();
    assert(e[0].tool_name =~= e[0].name + "-search"@);
    assert(e[1].tool_name =~= e[1].name + "-search"@);
    assert(e[2].tool_name =~= e[2].name + "-search"@);
    assert(e[3].tool_name =~= e[3].name + "-search"@);
    assert(e[4].tool_name =~= e[4].name + "-search"@);
    assert(e[0].tool_name[0] != alias_name()[0]);
    assert(e[1].tool_name[0] != alias_name()[0]);
    assert(e[2].tool_name[0] != alias_name()[0]);
    assert(e[3].tool_name[0] != alias_name()[0]);
    assert(e[4].tool_name[0] != alias_name()[0]);
}

/// `params2` keeps every parameter of `params1`, with the same value (and
/// may have more).
pub open spec fn extends(params1: Map<Seq<char>, Seq<char>>, params2: Map<Seq<char>, Seq<char>>) -> bool {
    forall|k: Seq<char>| #[trigger] params1.contains_key(k) ==> params2.contains_key(k) && params2[k] == params1[k]
}

/// `a` is a subsequence of `b`: `b` with some of its elements left out.
pub open spec fn subsequence<A>(a: Seq<A>, b: Seq<A>) -> bool
    decreases b.len(),
{
    if b.len() == 0 {
        a.len() == 0
    } else {
        subsequence(a, b.drop_last()) || (a.len() > 0 && a.last() == b.last() && subsequence(
            a.drop_last(),
            b.drop_last(),
        ))
    }
}

/// The names of tool definitions, in order.
pub open spec fn tool_names(tools: Seq<ToolSpec>) -> Seq<Seq<char>> {
    tools.map_values(|t: ToolSpec| t.name)
}

proof fn lemma_tool_names_push(tools: Seq<ToolSpec>, t: ToolSpec)
    ensures
        tool_names(tools.push(t)) == tool_names(tools).push(t.name),
{
    assert(tool_names(tools.push(t)) =~= tool_names(tools).push(t.name));
}

proof fn lemma_subsequence_facts<A>(a: Seq<A>, b: Seq<A>)
    requires
        subsequence(a, b),
    ensures
        a.len() <= b.len(),
        forall|j: int| 0 <= j < a.len() ==> b.contains(#[trigger] a[j]),
    decreases b.len(),
{
    if b.len() > 0 {
        let b0 = b.drop_last();
        if subsequence(a, b0) {
            lemma_subsequence_facts(a, b0);
            assert forall|j: int| 0 <= j < a.len() implies b.contains(#[trigger] a[j]) by {
                let w = choose|w: int| 0 <= w < b0.len() && b0[w] == a[j];
                assert(b[w] == a[j]);
            }
        } else {
            let a0 = a.drop_last();
            lemma_subsequence_facts(a0, b0);
            assert forall|j: int| 0 <= j < a.len() implies b.contains(#[trigger] a[j]) by {
                if j == a.len() - 1 {
                    assert(b[b.len() - 1] == a[j]);
                } else {
                    assert(a0[j] == a[j]);
                    let w = choose|w: int| 0 <= w < b0.len() && b0[w] == a0[j];
                    assert(b[w] == a[j]);
                }
            }
        }
    }
}

proof fn lemma_available_grows(p: ProviderInfo, params1: Map<Seq<char>, Seq<char>>, params2: Map<Seq<char>, Seq<char>>)
    requires
        extends(params1, params2),
        available(p, params1),
    ensures
        available(p, params2),
{
    assert forall|i: int| 0 <= i < p.required_params.len() implies #[trigger] has_value(params2, p.required_params[i]) by {
        assert(has_value(params1, p.required_params[i]));
        assert(params1.contains_key(p.required_params[i]));
    }
}

proof fn lemma_listed_grows(entries: Seq<ProviderInfo>, params1: Map<Seq<char>, Seq<char>>, params2: Map<Seq<char>, Seq<char>>)
    requires
        extends(params1, params2),
    ensures
        subsequence(tool_names(listed_tools(entries, params1)), tool_names(listed_tools(entries, params2))),
    decreases entries.len(),
{
    if entries.len() == 0 {
        assert(tool_names(listed_tools(entries, params2)).len() == 0);
    } else {
        let rest = entries.drop_last();
        let last = entries.last();
        lemma_listed_grows(rest, params1, params2);
        let b1 = listed_tools(rest, params1);
        let b2 = listed_tools(rest, params2);
        let t = tool_definition(last.tool_name, last.description);
        if available(last, params1) {
            lemma_available_grows(last, params1, params2);
            lemma_tool_names_push(b1, t);
            lemma_tool_names_push(b2, t);
            assert(tool_names(b1.push(t)).drop_last() =~= tool_names(b1));
            assert(tool_names(b2.push(t)).drop_last() =~= tool_names(b2));
        } else if available(last, params2) {
            lemma_tool_names_push(b2, t);
            assert(tool_names(b2.push(t)).drop_last() =~= tool_names(b2));
        }
    }
}

proof fn lemma_named_position_found(entries: Seq<ProviderInfo>, name: Seq<char>, params: Map<Seq<char>, Seq<char>>, start: int, i: int)
    requires
        0 <= start <= i < entries.len(),
        entries[i].name == name,
        available(entries[i], params),
    ensures
        named_position(entries, name, params, start) is Some,
    decreases i - start,
{
    if start < i && !(entries[start].name == name && available(entries[start], params)) {
        lemma_named_position_found(entries, name, params, start + 1, i);
    }
}

/// Adding URL parameters only adds tools: where `params2` keeps every
/// parameter of `params1` with its value, the tool names listed under
/// `params1` are listed under `params2` too, in the same order.
pub proof fn law_more_params_more_tools(entries: Seq<ProviderInfo>, params1: Map<Seq<char>, Seq<char>>, params2: Map<Seq<char>, Seq<char>>)
    requires
        extends(params1, params2),
    ensures
        subsequence(tool_names(available_tools(entries, params1)), tool_names(available_tools(entries, params2))),
        tool_names(available_tools(entries, params1)).len() <= tool_names(available_tools(entries, params2)).len(),
        forall|j: int|
            0 <= j < tool_names(available_tools(entries, params1)).len() ==> tool_names(
                available_tools(entries, params2),
            ).contains(#[trigger] tool_names(available_tools(entries, params1))[j]),
{
    lemma_listed_grows(entries, params1, params2);
    let l1 = listed_tools(entries, params1);
    let l2 = listed_tools(entries, params2);
    let n1 = tool_names(available_tools(entries, params1));
    let n2 = tool_names(available_tools(entries, params2));
    match alias_target(entries, params1) {
        Some(i) => {
            let d = params1[default_param()];
            lemma_named_position_sound(entries, d, params1, 0);
            lemma_available_grows(entries[i], params1, params2);
            lemma_named_position_found(entries, d, params2, 0, i);
            let j = alias_target(entries, params2)->Some_0;
            lemma_tool_names_push(l1, alias_tool(entries[i]));
            lemma_tool_names_push(l2, alias_tool(entries[j]));
            assert(n1.drop_last() =~= tool_names(l1));
            assert(n2.drop_last() =~= tool_names(l2));
        },
        None => {
            match alias_target(entries, params2) {
                Some(j) => {
                    lemma_tool_names_push(l2, alias_tool(entries[j]));
                    assert(n2.drop_last() =~= tool_names(l2));
                },
                None => {},
            }
        },
    }
    lemma_subsequence_facts(n1, n2);
}

proof fn lemma_suffix_cancel(a: Seq<char>, b: Seq<char>, s: Seq<char>)
    requires
        a + s == b + s,
    ensures
        a == b,
{
    assert((a + s).len() == a.len() + s.len());
    assert forall|i: int| 0 <= i < a.len() implies a[i] == b[i] by {
        assert((a + s)[i] == a[i]);
        assert((b + s)[i] == b[i]);
    }
    assert(a =~= b);
}

proof fn lemma_listed_contains(entries: Seq<ProviderInfo>, params: Map<Seq<char>, Seq<char>>, i: int)
    requires
        0 <= i < entries.len(),
        available(entries[i], params),
    ensures
        tool_names(listed_tools(entries, params)).contains(entries[i].tool_name),
    decreases entries.len(),
{
    let rest = entries.drop_last();
    let before = listed_tools(rest, params);
    let last = entries.last();
    let t = tool_definition(last.tool_name, last.description);
    if i == entries.len() - 1 {
        lemma_tool_names_push(before, t);
        assert(tool_names(listed_tools(entries, params))[tool_names(before).len() as int] == entries[i].tool_name);
    } else {
        assert(rest[i] == entries[i]);
        lemma_listed_contains(rest, params, i);
        let w = choose|w: int| 0 <= w < tool_names(before).len() && tool_names(before)[w] == entries[i].tool_name;
        if available(last, params) {
            lemma_tool_names_push(before, t);
        }
        assert(tool_names(listed_tools(entries, params))[w] == entries[i].tool_name);
    }
}

/// Only listed tools can be called: where the providers follow the naming
/// convention, a tool name that resolves to a provider is one of the tools
/// listed under the same URL parameters.
pub proof fn law_callable_tools_are_listed(entries: Seq<ProviderInfo>, name: Seq<char>, params: Map<Seq<char>, Seq<char>>)
    requires
        conventional(entries),
    ensures
        resolve(entries, name, params) is Ok ==> tool_names(available_tools(entries, params)).contains(name),
{
    if resolve(entries, name, params) is Ok {
        let listed = listed_tools(entries, params);
        let names = tool_names(available_tools(entries, params));
        if name == alias_name() {
            let d = params[default_param()];
            let target = d + "-search"@;
            lemma_tool_position_sound(entries, target, params, 0);
            let i = tool_position(entries, target, params, 0)->Some_0;
            assert(entries[i].tool_name == entries[i].name + "-search"@);
            lemma_suffix_cancel(entries[i].name, d, "-search"@);
            lemma_named_position_found(entries, d, params, 0, i);
            let j = alias_target(entries, params)->Some_0;
            lemma_tool_names_push(listed, alias_tool(entries[j]));
            assert(names[names.len() - 1] == name);
        } else {
            lemma_tool_position_sound(entries, name, params, 0);
            let i = tool_position(entries, name, params, 0)->Some_0;
            lemma_listed_contains(entries, params, i);
            let w = choose|w: int| 0 <= w < tool_names(listed).len() && tool_names(listed)[w] == name;
            match alias_target(entries, params) {
                Some(j) => {
                    lemma_tool_names_push(listed, alias_tool(entries[j]));
                },
                None => {},
            }
            assert(names[w] == name);
        }
    }
}

/// With the server's own providers, a tool can be called exactly when it is
/// listed under the same URL parameters.
pub proof fn law_builtin_tools_callable_iff_listed(name: Seq<char>, params: Map<Seq<char>, Seq<char>>)
    ensures
        tool_names(available_tools(builtin_providers(), params)).contains(name) <==> resolve(
            builtin_providers(),
            name,
            params,
        ) is Ok,
{
    let e = builtin_providers();
    law_builtin_providers_conventional();
    law_callable_tools_are_listed(e, name, params);
    let names = tool_names(available_tools(e, params));
    if names.contains(name) {
        let k = choose|k: int| 0 <= k < names.len() && names[k] == name;
        law_listed_tools_callable(e, params, k);
    }
}

/// Each piece of a sequence has at least one character.
pub open spec fn all_nonempty(pieces: Seq<Seq<char>>) -> bool {
    forall|i: int| 0 <= i < pieces.len() ==> (#[trigger] pieces[i]).len() > 0
}

proof fn lemma_part_texts_nonempty(parts: Seq<Json>)
    ensures
        all_nonempty(part_texts(parts)),
    decreases parts.len(),
{
    if parts.len() > 0 {
        lemma_part_texts_nonempty(parts.drop_last());
    }
}

proof fn lemma_output_texts_nonempty(items: Seq<Json>)
    ensures
        all_nonempty(output_items_texts(items)),
    decreases items.len(),
{
    if items.len() > 0 {
        lemma_output_texts_nonempty(items.drop_last());
        let last = items.last();
        if last.index("type"@).as_str() == Some("message"@) {
            if let Some(parts) = last.index("content"@).as_array() {
                lemma_part_texts_nonempty(parts);
            }
        }
        let a = output_items_texts(items.drop_last());
        let b = output_item_texts(last);
        assert forall|i: int| 0 <= i < (a + b).len() implies (#[trigger] (a + b)[i]).len() > 0 by {
            if i >= a.len() {
                assert((a + b)[i] == b[i - a.len()]);
            }
        }
    }
}

proof fn lemma_join_nonempty(pieces: Seq<Seq<char>>, sep: Seq<char>)
    requires
        pieces.len() > 0,
        all_nonempty(pieces),
    ensures
        join(pieces, sep).len() > 0,
{
    assert(pieces.last().len() > 0);
}

/// The text that the Volcano Engine and Aliyun providers return for an
/// answer is never empty.
pub proof fn law_response_text_not_empty(data: Json)
    ensures
        response_text(data).len() > 0,
{
    reveal_strlit("未获取到搜索结果");
    let texts = response_texts(data);
    if let Some(items) = data.index("output"@).as_array() {
        lemma_output_texts_nonempty(items);
    }
    if texts.len() > 0 {
        lemma_join_nonempty(texts, "\n"@);
    }
}

} // verus!
