use web_search_mcp::params::UrlParams;
use web_search_mcp::provider::{build_registry, KimiProvider, ProviderRegistry, SearchProvider, ZaiProvider};

fn reg_params(pairs: &[(&str, &str)]) -> UrlParams {
    let mut p = UrlParams::new();
    for (k, v) in pairs {
        p.insert(k.to_string(), v.to_string());
    }
    p
}

fn reg_names(tools: &[web_search_mcp::McpTool]) -> Vec<String> {
    tools.iter().map(|t| t.name.clone()).collect()
}

#[test]
fn test_dynamic_tools_discovery_empty() {
    let registry = build_registry();
    let params = UrlParams::new();
    let tools = registry.get_available_tools(&params);
    assert_eq!(tools.len(), 0);
}

#[test]
fn test_dynamic_tools_discovery_single() {
    let registry = build_registry();
    let mut params = UrlParams::new();
    params.insert("kimi-apiKey".to_string(), "sk-test".to_string());

    let tools = registry.get_available_tools(&params);
    assert_eq!(tools.len(), 1);
    assert_eq!(tools[0].name, "kimi-search");
}

#[test]
fn test_dynamic_tools_discovery_multiple_and_alias() {
    let registry = build_registry();
    let mut params = UrlParams::new();
    params.insert("kimi-apiKey".to_string(), "sk-test1".to_string());
    params.insert("zai-apiKey".to_string(), "sk-test2".to_string());
    params.insert("default-search".to_string(), "kimi".to_string());

    let tools = registry.get_available_tools(&params);
    assert_eq!(tools.len(), 3);
    let names: Vec<&str> = tools.iter().map(|t| t.name.as_str()).collect();
    assert!(names.contains(&"kimi-search"));
    assert!(names.contains(&"zai-search"));
    assert!(names.contains(&"web-search"));
}

#[test]
fn test_aliyuncs_requires_both_params() {
    let registry = build_registry();
    let mut params = UrlParams::new();
    params.insert("aliyuncs-apiKey".to_string(), "sk-test".to_string());

    let tools = registry.get_available_tools(&params);
    assert_eq!(tools.len(), 0);

    params.insert("aliyuncs-baseUrl".to_string(), "https://test.maas.aliyuncs.com".to_string());
    let tools = registry.get_available_tools(&params);
    assert_eq!(tools.len(), 1);
    assert_eq!(tools[0].name, "aliyuncs-search");
}

#[test]
fn all_providers_listed_in_registration_order_with_alias_last() {
    let registry = build_registry();
    let params = reg_params(&[
        ("kimi-apiKey", "sk-a"),
        ("zai-apiKey", "sk-b"),
        ("volces-apiKey", "sk-c"),
        ("tencentmaas-apiKey", "sk-d"),
        ("aliyuncs-apiKey", "sk-e"),
        ("aliyuncs-baseUrl", "https://ws.maas.aliyuncs.com"),
        ("default-search", "zai"),
    ]);
    let tools = registry.get_available_tools(&params);
    assert_eq!(
        reg_names(&tools),
        vec!["kimi-search", "zai-search", "volces-search", "tencentmaas-search", "aliyuncs-search", "web-search"]
    );
    let alias = &tools[5];
    assert_eq!(alias.description, "网络搜索 (默认使用 zai)");
}

#[test]
fn blank_api_key_counts_as_missing() {
    let registry = build_registry();
    let params = reg_params(&[("kimi-apiKey", "  \t "), ("zai-apiKey", "\u{3000}")]);
    assert_eq!(registry.get_available_tools(&params).len(), 0);
    let params = reg_params(&[("kimi-apiKey", " k ")]);
    assert_eq!(reg_names(&registry.get_available_tools(&params)), vec!["kimi-search"]);
}

#[test]
fn alias_needs_available_default_provider() {
    let registry = build_registry();
    let params = reg_params(&[("kimi-apiKey", "k"), ("default-search", "zai")]);
    assert_eq!(reg_names(&registry.get_available_tools(&params)), vec!["kimi-search"]);
    let params = reg_params(&[("kimi-apiKey", "k"), ("default-search", "nobody")]);
    assert_eq!(reg_names(&registry.get_available_tools(&params)), vec!["kimi-search"]);
}

#[test]
fn tool_definition_has_query_schema() {
    let registry = build_registry();
    let params = reg_params(&[("zai-apiKey", "k")]);
    let tools = registry.get_available_tools(&params);
    assert_eq!(tools[0].description, "智谱 AI 联网搜索");
    let schema = tools[0].to_json_value();
    let expected = web_search_mcp::provider::query_schema_value();
    assert_eq!(web_search_mcp::json::get_field(Some(&schema), "inputSchema"), Some(&expected));
}

#[test]
fn call_tool_resolves_direct_and_alias() {
    let registry = build_registry();
    let params = reg_params(&[("kimi-apiKey", "k"), ("default-search", "kimi")]);
    let direct = registry.call_tool("kimi-search", "rust", &params).unwrap();
    assert_eq!(direct.provider, "kimi");
    assert_eq!(direct.tool_name, "kimi-search");
    assert_eq!(direct.query, "rust");
    let alias = registry.call_tool("web-search", "rust", &params).unwrap();
    assert_eq!(alias.provider, "kimi");
    assert_eq!(alias.tool_name, "kimi-search");
}

#[test]
fn call_tool_errors() {
    let registry = build_registry();
    let params = reg_params(&[("kimi-apiKey", "k")]);
    assert_eq!(
        registry.call_tool("web-search", "q", &params).unwrap_err(),
        "No default-search configured for web-search alias"
    );
    assert_eq!(
        registry.call_tool("zai-search", "q", &params).unwrap_err(),
        "Tool 'zai-search' not found or not configured"
    );
    let params = reg_params(&[("kimi-apiKey", "k"), ("default-search", "zai")]);
    assert_eq!(
        registry.call_tool("web-search", "q", &params).unwrap_err(),
        "Tool 'web-search' not found or not configured"
    );
}

#[test]
fn every_listed_tool_resolves() {
    let registry = build_registry();
    let params = reg_params(&[
        ("volces-apiKey", "v"),
        ("tencentmaas-apiKey", "t"),
        ("default-search", "tencentmaas"),
    ]);
    for tool in registry.get_available_tools(&params) {
        assert!(registry.call_tool(&tool.name, "q", &params).is_ok(), "{}", tool.name);
    }
}

#[test]
fn custom_registry_keeps_registration_order() {
    let mut registry = ProviderRegistry::new();
    registry.register(ZaiProvider);
    registry.register(KimiProvider);
    let params = reg_params(&[("kimi-apiKey", "k"), ("zai-apiKey", "z")]);
    assert_eq!(reg_names(&registry.get_available_tools(&params)), vec!["zai-search", "kimi-search"]);
}

#[test]
fn provider_trait_reports_its_declaration() {
    assert_eq!(KimiProvider.name(), "kimi");
    assert_eq!(KimiProvider.tool_name(), "kimi-search");
    assert_eq!(KimiProvider.required_params(), vec!["kimi-apiKey"]);
    let params = reg_params(&[("kimi-apiKey", "k")]);
    assert!(KimiProvider.is_available(&params));
    assert!(!ZaiProvider.is_available(&params));
    assert_eq!(ZaiProvider.get_tool_definition().name, "zai-search");
}

#[test]
fn volces_with_custom_options_is_listed_alone() {
    let registry = build_registry();
    let params = reg_params(&[
        ("volces-apiKey", "sk-xxx"),
        ("volces-max_keyword", "5"),
        ("volces-sources", "douyin,toutiao"),
    ]);
    assert_eq!(reg_names(&registry.get_available_tools(&params)), vec!["volces-search"]);
}

#[test]
fn more_params_only_add_tools() {
    let registry = build_registry();
    let few = reg_params(&[("zai-apiKey", "z"), ("default-search", "zai")]);
    let more = reg_params(&[
        ("zai-apiKey", "z"),
        ("default-search", "zai"),
        ("kimi-apiKey", "k"),
        ("tencentmaas-apiKey", "t"),
    ]);
    assert_eq!(reg_names(&registry.get_available_tools(&few)), vec!["zai-search", "web-search"]);
    assert_eq!(
        reg_names(&registry.get_available_tools(&more)),
        vec!["kimi-search", "zai-search", "tencentmaas-search", "web-search"]
    );
}

#[test]
fn only_listed_tools_can_be_called() {
    let registry = build_registry();
    let params = reg_params(&[("kimi-apiKey", "k"), ("default-search", "kimi")]);
    let listed = reg_names(&registry.get_available_tools(&params));
    for name in ["kimi-search", "web-search", "zai-search", "volces-search", "other", ""] {
        assert_eq!(
            listed.contains(&name.to_string()),
            registry.call_tool(name, "q", &params).is_ok(),
            "{}",
            name
        );
    }
}
