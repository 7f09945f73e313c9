//! The engine's configuration: its fields, the defaults, and the rules a configuration
//! has to meet before an indexing run or a search may start.

use crate::text::{
    chars_of, has_prefix, starts_with, text_of, trim_bounds, trimmed, without_trailing,
};
use crate::text_map::TextMap;
use vstd::prelude::*;

verus! {

/// Blobs per upload request where the configuration names no batch size.
pub const DEFAULT_BATCH_SIZE: u32 = 10;

/// Lines per blob where the configuration names no maximum.
pub const DEFAULT_MAX_LINES_PER_BLOB: u32 = 800;

/// Shortest wait, in seconds, of a search that finds an indexing run in progress.
pub const DEFAULT_WAIT_MIN_SECS: u64 = 1;

/// Longest wait, in seconds, of a search that finds an indexing run in progress.
pub const DEFAULT_WAIT_MAX_SECS: u64 = 5;

/// What the engine is configured with. Every field may be absent.
pub struct AcemcpConfig {
    pub base_url: Option<String>,
    pub token: Option<String>,
    pub batch_size: Option<u32>,
    pub max_lines_per_blob: Option<u32>,
    pub text_extensions: Option<Vec<String>>,
    pub exclude_patterns: Option<Vec<String>>,
    pub smart_wait_range: Option<(u64, u64)>,
}

/// The mathematical value of an [`AcemcpConfig`].
pub struct ConfigView {
    pub base_url: Option<Seq<char>>,
    pub token: Option<Seq<char>>,
    pub batch_size: Option<u32>,
    pub max_lines_per_blob: Option<u32>,
    pub text_extensions: Option<Seq<Seq<char>>>,
    pub exclude_patterns: Option<Seq<Seq<char>>>,
    pub smart_wait_range: Option<(u64, u64)>,
}

/// The text of an optional string.
pub open spec fn text_view(s: Option<String>) -> Option<Seq<char>> {
    match s {
        Some(t) => Some(t@),
        None => None,
    }
}

/// The texts of an optional list of strings.
pub open spec fn list_view(list: Option<Vec<String>>) -> Option<Seq<Seq<char>>> {
    match list {
        Some(items) => Some(items.deep_view()),
        None => None,
    }
}

/// The texts of an optional list, the empty list where it is absent.
pub open spec fn list_or_empty(list: Option<Seq<Seq<char>>>) -> Seq<Seq<char>> {
    match list {
        Some(items) => items,
        None => Seq::empty(),
    }
}

impl View for AcemcpConfig {
    type V = ConfigView;

    open spec fn view(&self) -> ConfigView {
        ConfigView {
            base_url: text_view(self.base_url),
            token: text_view(self.token),
            batch_size: self.batch_size,
            max_lines_per_blob: self.max_lines_per_blob,
            text_extensions: list_view(self.text_extensions),
            exclude_patterns: list_view(self.exclude_patterns),
            smart_wait_range: self.smart_wait_range,
        }
    }
}

/// Why a configuration cannot be used.
#[derive(Clone, Copy, Debug, PartialEq, Eq, Structural)]
pub enum ConfigError {
    /// No base URL is configured.
    MissingBaseUrl,
    /// The base URL lacks its scheme or its host.
    InvalidBaseUrl,
    /// No token is configured.
    MissingToken,
}

/// The prefix of a plain HTTP URL.
pub open spec fn http_scheme() -> Seq<char> {
    "http://"@
}

/// The prefix of an HTTPS URL.
pub open spec fn https_scheme() -> Seq<char> {
    "https://"@
}

/// Whether `url` begins with one of the two schemes.
pub open spec fn has_scheme(url: Seq<char>) -> bool {
    has_prefix(url, http_scheme()) || has_prefix(url, https_scheme())
}

/// What follows the scheme in `url`.
pub open spec fn after_scheme(url: Seq<char>) -> Seq<char> {
    if has_prefix(url, https_scheme()) {
        url.skip(https_scheme().len() as int)
    } else {
        url.skip(http_scheme().len() as int)
    }
}

/// Whether a host follows the scheme of `url`: the rest, without surrounding
/// whitespace, is not empty and does not begin with the slash that would end the host.
pub open spec fn has_host(url: Seq<char>) -> bool {
    let rest = trimmed(after_scheme(url));
    rest.len() > 0 && rest[0] != '/'
}

/// The base URL as requests use it: without surrounding whitespace, with `http://` in
/// front where no scheme is given, and without slashes at its end.
pub open spec fn normalized_base_url(input: Seq<char>) -> Seq<char> {
    let url = trimmed(input);
    let with_scheme = if has_scheme(url) {
        url
    } else {
        http_scheme() + url
    };
    without_trailing(with_scheme, '/')
}

/// The first rule that `config` breaks, if any: the base URL is present, it has a scheme
/// and a host, and the token is present.
pub open spec fn config_error(config: ConfigView) -> Option<ConfigError> {
    match config.base_url {
        None => Some(ConfigError::MissingBaseUrl),
        Some(url) => if !has_scheme(url) || !has_host(url) {
            Some(ConfigError::InvalidBaseUrl)
        } else if config.token is None {
            Some(ConfigError::MissingToken)
        } else {
            None
        },
    }
}

/// The batch size in force.
pub open spec fn effective_batch_size(config: ConfigView) -> nat {
    match config.batch_size {
        Some(n) => n as nat,
        None => DEFAULT_BATCH_SIZE as nat,
    }
}

/// The maximum of lines per blob in force.
pub open spec fn effective_max_lines(config: ConfigView) -> nat {
    match config.max_lines_per_blob {
        Some(n) => n as nat,
        None => DEFAULT_MAX_LINES_PER_BLOB as nat,
    }
}

/// A copy of `s`.
pub fn clone_text(s: &Option<String>) -> (copy: Option<String>)
    ensures
        text_view(copy) == text_view(*s),
{
    match s {
        Some(t) => Some(t.clone()),
        None => None,
    }
}

/// A copy of `items`.
pub fn clone_list(items: &Vec<String>) -> (copy: Vec<String>)
    ensures
        copy.deep_view() == items.deep_view(),
{
    let mut copy: Vec<String> = Vec::new();
    let mut i: usize = 0;
    while i < items.len()
        invariant
            i <= items@.len(),
            copy@.len() == i,
            forall|k: int| 0 <= k < i ==> copy@[k]@ == items@[k]@,
        decreases items@.len() - i,
    {
        copy.push(items[i].clone());
        i += 1;
    }
    assert(copy.deep_view() =~= items.deep_view());
    copy
}

/// A copy of `items`, the empty list where there is none.
pub fn clone_list_or_empty(items: &Option<Vec<String>>) -> (copy: Vec<String>)
    ensures
        copy.deep_view() == list_or_empty(list_view(*items)),
{
    match items {
        Some(list) => clone_list(list),
        None => {
            let copy: Vec<String> = Vec::new();
            assert(copy.deep_view() =~= Seq::<Seq<char>>::empty());
            copy
        },
    }
}

/// Whether `url` begins with `http://` or `https://`.
pub fn url_has_scheme(url: &Vec<char>) -> (found: bool)
    ensures
        found == has_scheme(url@),
{
    let http = chars_of("http://");
    let https = chars_of("https://");
    starts_with(url, &http) || starts_with(url, &https)
}

/// Whether a host follows the scheme of `url`.
fn url_has_host(url: &Vec<char>) -> (found: bool)
    requires
        has_scheme(url@),
    ensures
        found == has_host(url@),
{
    let http = chars_of("http://");
    let https = chars_of("https://");
    let skip = if starts_with(url, &https) {
        https.len()
    } else {
        http.len()
    };
    let rest = vstd::slice::slice_to_vec(
        vstd::slice::slice_subrange(url.as_slice(), skip, url.len()),
    );
    assert(rest@ =~= after_scheme(url@));
    let (from, to) = trim_bounds(&rest);
    from < to && rest[from] != '/'
}

/// The base URL as requests use it.
pub fn normalize_base_url(input: &str) -> (url: String)
    ensures
        url@ == normalized_base_url(input@),
{
    let chars = chars_of(input);
    let (from, to) = trim_bounds(&chars);
    let bare = vstd::slice::slice_to_vec(vstd::slice::slice_subrange(chars.as_slice(), from, to));
    let mut url: Vec<char> = if url_has_scheme(&bare) {
        bare
    } else {
        let mut with_scheme = chars_of("http://");
        let mut rest = bare;
        with_scheme.append(&mut rest);
        with_scheme
    };
    let ghost full = url@;
    while url.len() > 0 && url[url.len() - 1] == '/'
        invariant
            without_trailing(full, '/') == without_trailing(url@, '/'),
        decreases url@.len(),
    {
        url.pop();
    }
    text_of(url.as_slice())
}

impl AcemcpConfig {
    /// A copy of this configuration.
    pub fn duplicate(&self) -> (copy: AcemcpConfig)
        ensures
            copy@ == self@,
    {
        AcemcpConfig {
            base_url: clone_text(&self.base_url),
            token: clone_text(&self.token),
            batch_size: self.batch_size,
            max_lines_per_blob: self.max_lines_per_blob,
            text_extensions: clone_optional_list(&self.text_extensions),
            exclude_patterns: clone_optional_list(&self.exclude_patterns),
            smart_wait_range: self.smart_wait_range,
        }
    }

    /// The configuration with its base URL normalized, where it has one.
    pub fn with_normalized_base_url(self) -> (config: AcemcpConfig)
        ensures
            config@ == (ConfigView {
                base_url: match self@.base_url {
                    Some(url) => Some(normalized_base_url(url)),
                    None => None,
                },
                ..self@
            }),
    {
        let base_url = match &self.base_url {
            Some(url) => Some(normalize_base_url(url.as_str())),
            None => None,
        };
        AcemcpConfig {
            base_url,
            token: self.token,
            batch_size: self.batch_size,
            max_lines_per_blob: self.max_lines_per_blob,
            text_extensions: self.text_extensions,
            exclude_patterns: self.exclude_patterns,
            smart_wait_range: self.smart_wait_range,
        }
    }

    /// Checks the rules that an indexing run asks of a configuration, in their order.
    pub fn validate(&self) -> (checked: Result<(), ConfigError>)
        ensures
            checked is Ok <==> config_error(self@) is None,
            checked matches Err(e) ==> config_error(self@) == Some(e),
    {
        match &self.base_url {
            None => Err(ConfigError::MissingBaseUrl),
            Some(url) => {
                let chars = chars_of(url.as_str());
                if !url_has_scheme(&chars) || !url_has_host(&chars) {
                    Err(ConfigError::InvalidBaseUrl)
                } else if self.token.is_none() {
                    Err(ConfigError::MissingToken)
                } else {
                    Ok(())
                }
            },
        }
    }
}

/// The message shown for a configuration error.
pub open spec fn config_error_message(error: ConfigError) -> Seq<char> {
    match error {
        ConfigError::MissingBaseUrl => "未配置 base_url"@,
        ConfigError::InvalidBaseUrl => "无效的 base_url，请填写完整的 http(s)://host[:port] 格式"@,
        ConfigError::MissingToken => "未配置 token"@,
    }
}

/// The part of the agent's own configuration that the engine reads.
pub struct McpConfig {
    pub acemcp_base_url: Option<String>,
    pub acemcp_token: Option<String>,
    pub acemcp_batch_size: Option<u32>,
    pub acemcp_max_lines_per_blob: Option<u32>,
    pub acemcp_text_extensions: Option<Vec<String>>,
    pub acemcp_exclude_patterns: Option<Vec<String>>,
    /// Which tools are switched on, by their names.
    pub tools: TextMap<bool>,
}

/// The engine's configuration that the agent's configuration gives: its fields as they
/// are, and the default range of waits.
pub open spec fn engine_config(mcp: McpConfig) -> ConfigView {
    ConfigView {
        base_url: text_view(mcp.acemcp_base_url),
        token: text_view(mcp.acemcp_token),
        batch_size: mcp.acemcp_batch_size,
        max_lines_per_blob: mcp.acemcp_max_lines_per_blob,
        text_extensions: list_view(mcp.acemcp_text_extensions),
        exclude_patterns: list_view(mcp.acemcp_exclude_patterns),
        smart_wait_range: Some((DEFAULT_WAIT_MIN_SECS, DEFAULT_WAIT_MAX_SECS)),
    }
}

/// A copy of `items`, if there are any.
pub fn clone_optional_list(items: &Option<Vec<String>>) -> (copy: Option<Vec<String>>)
    ensures
        list_view(copy) == list_view(*items),
{
    match items {
        Some(list) => Some(clone_list(list)),
        None => None,
    }
}

impl McpConfig {
    /// The engine's configuration.
    pub fn acemcp_config(&self) -> (config: AcemcpConfig)
        ensures
            config@ == engine_config(*self),
    {
        AcemcpConfig {
            base_url: clone_text(&self.acemcp_base_url),
            token: clone_text(&self.acemcp_token),
            batch_size: self.acemcp_batch_size,
            max_lines_per_blob: self.acemcp_max_lines_per_blob,
            text_extensions: clone_optional_list(&self.acemcp_text_extensions),
            exclude_patterns: clone_optional_list(&self.acemcp_exclude_patterns),
            smart_wait_range: Some((DEFAULT_WAIT_MIN_SECS, DEFAULT_WAIT_MAX_SECS)),
        }
    }
}

impl ConfigError {
    /// The message shown for this error.
    pub fn message(&self) -> (text: String)
        ensures
            text@ == config_error_message(*self),
    {
        match self {
            ConfigError::MissingBaseUrl => String::from_str("未配置 base_url"),
            ConfigError::InvalidBaseUrl => String::from_str(
                "无效的 base_url，请填写完整的 http(s)://host[:port] 格式",
            ),
            ConfigError::MissingToken => String::from_str("未配置 token"),
        }
    }
}

} // verus!
