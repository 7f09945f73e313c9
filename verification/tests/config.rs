use acemcp::config::{
    clone_list, clone_list_or_empty, clone_text, normalize_base_url, url_has_scheme,
    AcemcpConfig, ConfigError, McpConfig, DEFAULT_BATCH_SIZE, DEFAULT_MAX_LINES_PER_BLOB,
    DEFAULT_WAIT_MAX_SECS, DEFAULT_WAIT_MIN_SECS,
};
use acemcp::text_map::TextMap;

fn config(base_url: Option<&str>, token: Option<&str>) -> AcemcpConfig {
    AcemcpConfig {
        base_url: base_url.map(String::from),
        token: token.map(String::from),
        batch_size: None,
        max_lines_per_blob: None,
        text_extensions: None,
        exclude_patterns: None,
        smart_wait_range: None,
    }
}

#[test]
fn defaults_are_those_of_the_engine() {
    assert_eq!(DEFAULT_BATCH_SIZE, 10);
    assert_eq!(DEFAULT_MAX_LINES_PER_BLOB, 800);
    assert_eq!(DEFAULT_WAIT_MIN_SECS, 1);
    assert_eq!(DEFAULT_WAIT_MAX_SECS, 5);
}

#[test]
fn base_url_without_scheme_gets_http() {
    assert_eq!(normalize_base_url("example.com"), "http://example.com");
    assert_eq!(normalize_base_url("localhost:8080/api"), "http://localhost:8080/api");
}

#[test]
fn base_url_with_scheme_keeps_it() {
    assert_eq!(normalize_base_url("https://example.com"), "https://example.com");
    assert_eq!(normalize_base_url("http://example.com"), "http://example.com");
}

#[test]
fn base_url_loses_whitespace_and_trailing_slashes() {
    assert_eq!(normalize_base_url("  https://example.com/  "), "https://example.com");
    assert_eq!(normalize_base_url("https://example.com///"), "https://example.com");
    assert_eq!(normalize_base_url("example.com/api/"), "http://example.com/api");
    assert_eq!(normalize_base_url("\thttps://a.b/c\n"), "https://a.b/c");
}

#[test]
fn base_url_of_nothing_is_the_bare_scheme_without_its_slashes() {
    assert_eq!(normalize_base_url(""), "http:");
    assert_eq!(normalize_base_url("   "), "http:");
    assert_eq!(normalize_base_url("https://"), "https:");
}

#[test]
fn scheme_is_told_by_case_and_place() {
    assert!(url_has_scheme(&"http://x".chars().collect()));
    assert!(url_has_scheme(&"https://x".chars().collect()));
    assert!(!url_has_scheme(&"HTTP://x".chars().collect()));
    assert!(!url_has_scheme(&"ftp://x".chars().collect()));
    assert!(!url_has_scheme(&" http://x".chars().collect()));
}

#[test]
fn configuration_without_base_url_is_refused_first() {
    assert_eq!(config(None, None).validate(), Err(ConfigError::MissingBaseUrl));
    assert_eq!(config(None, Some("t")).validate(), Err(ConfigError::MissingBaseUrl));
}

#[test]
fn base_url_without_scheme_is_invalid() {
    assert_eq!(config(Some("example.com"), Some("t")).validate(), Err(ConfigError::InvalidBaseUrl));
    assert_eq!(config(Some("ftp://example.com"), Some("t")).validate(), Err(ConfigError::InvalidBaseUrl));
    assert_eq!(config(Some(" https://example.com"), Some("t")).validate(), Err(ConfigError::InvalidBaseUrl));
}

#[test]
fn base_url_without_host_is_invalid() {
    assert_eq!(config(Some("https://"), Some("t")).validate(), Err(ConfigError::InvalidBaseUrl));
    assert_eq!(config(Some("http://"), Some("t")).validate(), Err(ConfigError::InvalidBaseUrl));
    assert_eq!(config(Some("https://   "), Some("t")).validate(), Err(ConfigError::InvalidBaseUrl));
    assert_eq!(config(Some("https:///path"), Some("t")).validate(), Err(ConfigError::InvalidBaseUrl));
}

#[test]
fn invalid_base_url_is_told_before_the_missing_token() {
    assert_eq!(config(Some("example.com"), None).validate(), Err(ConfigError::InvalidBaseUrl));
}

#[test]
fn configuration_without_token_is_refused() {
    assert_eq!(config(Some("https://example.com"), None).validate(), Err(ConfigError::MissingToken));
}

#[test]
fn configuration_with_url_and_token_passes() {
    assert_eq!(config(Some("https://example.com"), Some("t")).validate(), Ok(()));
    assert_eq!(config(Some("http://localhost:8080"), Some("t")).validate(), Ok(()));
    assert_eq!(config(Some("http://a"), Some("t")).validate(), Ok(()));
    assert_eq!(config(Some("https://example.com/base/"), Some("")).validate(), Ok(()));
}

#[test]
fn configuration_errors_have_their_messages() {
    assert_eq!(ConfigError::MissingBaseUrl.message(), "未配置 base_url");
    assert_eq!(
        ConfigError::InvalidBaseUrl.message(),
        "无效的 base_url，请填写完整的 http(s)://host[:port] 格式"
    );
    assert_eq!(ConfigError::MissingToken.message(), "未配置 token");
}

#[test]
fn normalizing_the_configuration_touches_the_base_url_only() {
    let mut given = config(Some(" example.com/ "), Some("t"));
    given.batch_size = Some(3);
    given.smart_wait_range = Some((2, 4));
    let normalized = given.with_normalized_base_url();
    assert_eq!(normalized.base_url, Some(String::from("http://example.com")));
    assert_eq!(normalized.token, Some(String::from("t")));
    assert_eq!(normalized.batch_size, Some(3));
    assert_eq!(normalized.smart_wait_range, Some((2, 4)));
    assert_eq!(config(None, None).with_normalized_base_url().base_url, None);
}

#[test]
fn engine_configuration_comes_from_the_agents_configuration() {
    let mcp = McpConfig {
        acemcp_base_url: Some(String::from("https://example.com")),
        acemcp_token: Some(String::from("secret")),
        acemcp_batch_size: Some(20),
        acemcp_max_lines_per_blob: None,
        acemcp_text_extensions: Some(vec![String::from(".rs")]),
        acemcp_exclude_patterns: None,
        tools: TextMap::new(),
    };
    let engine = mcp.acemcp_config();
    assert_eq!(engine.base_url, Some(String::from("https://example.com")));
    assert_eq!(engine.token, Some(String::from("secret")));
    assert_eq!(engine.batch_size, Some(20));
    assert_eq!(engine.max_lines_per_blob, None);
    assert_eq!(engine.text_extensions, Some(vec![String::from(".rs")]));
    assert_eq!(engine.exclude_patterns, None);
    assert_eq!(engine.smart_wait_range, Some((1, 5)));
}

#[test]
fn copies_hold_the_same_values() {
    let items = vec![String::from("a"), String::from("b")];
    assert_eq!(clone_list(&items), items);
    assert_eq!(clone_list_or_empty(&Some(items.clone())), items);
    assert_eq!(clone_list_or_empty(&None), Vec::<String>::new());
    assert_eq!(clone_text(&Some(String::from("x"))), Some(String::from("x")));
    assert_eq!(clone_text(&None), None);
}
