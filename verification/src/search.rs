//! Searching: what a search request needs before it is sent, what is made of the
//! backend's answer, and how a search deals with the state of the project's index.

use crate::config::{AcemcpConfig, ConfigView};
use crate::index::{bearer, index_error_message, IndexError};
use crate::path::normalized_path;
use crate::registry::ProjectRegistry;
use crate::status::{
    derived_state, get_initial_index_state, get_project_status, needs_background_index,
    InitialIndexState, ProjectIndexStatus, ProjectsIndexStatus,
};
use crate::text::{decimal, decimal_text, joined};
use vstd::prelude::*;

verus! {

/// Why a search gives no result.
pub enum SearchError {
    /// No base URL is configured.
    MissingBaseUrl,
    /// No token is configured.
    MissingToken,
    /// The registry holds no identifier for the project.
    NotIndexed,
    /// The request failed, with this message.
    Request(String),
}

/// The mathematical value of a [`SearchError`].
pub enum SearchErrorView {
    MissingBaseUrl,
    MissingToken,
    NotIndexed,
    Request(Seq<char>),
}

impl View for SearchError {
    type V = SearchErrorView;

    open spec fn view(&self) -> SearchErrorView {
        match *self {
            SearchError::MissingBaseUrl => SearchErrorView::MissingBaseUrl,
            SearchError::MissingToken => SearchErrorView::MissingToken,
            SearchError::NotIndexed => SearchErrorView::NotIndexed,
            SearchError::Request(message) => SearchErrorView::Request(message@),
        }
    }
}

/// The message shown for a search error.
pub open spec fn search_error_message(error: SearchErrorView) -> Seq<char> {
    match error {
        SearchErrorView::MissingBaseUrl => "未配置 base_url"@,
        SearchErrorView::MissingToken => "未配置 token"@,
        SearchErrorView::NotIndexed => "项目尚未索引或索引为空，请先执行索引操作"@,
        SearchErrorView::Request(message) => message,
    }
}

impl SearchError {
    /// The message shown for this error.
    pub fn message(&self) -> (text: String)
        ensures
            text@ == search_error_message(self@),
    {
        match self {
            SearchError::MissingBaseUrl => String::from_str("未配置 base_url"),
            SearchError::MissingToken => String::from_str("未配置 token"),
            SearchError::NotIndexed => String::from_str("项目尚未索引或索引为空，请先执行索引操作"),
            SearchError::Request(message) => message.clone(),
        }
    }
}

/// One retrieval request.
pub struct SearchRequest {
    /// The address that the request goes to.
    pub url: String,
    /// The value of the request's authorization header.
    pub authorization: String,
    /// The query.
    pub information_request: String,
    /// The identifiers of the project's blobs.
    pub added_blobs: Vec<String>,
}

/// The mathematical value of a [`SearchRequest`].
pub struct SearchRequestView {
    pub url: Seq<char>,
    pub authorization: Seq<char>,
    pub information_request: Seq<char>,
    pub added_blobs: Seq<Seq<char>>,
}

impl View for SearchRequest {
    type V = SearchRequestView;

    open spec fn view(&self) -> SearchRequestView {
        SearchRequestView {
            url: self.url@,
            authorization: self.authorization@,
            information_request: self.information_request@,
            added_blobs: self.added_blobs.deep_view(),
        }
    }
}

/// The address of retrieval requests.
pub open spec fn retrieval_url(base_url: Seq<char>) -> Seq<char> {
    base_url + "/agents/codebase-retrieval"@
}

/// What a search of `query` comes to before anything is sent: the request, or the reason
/// why none is sent. The base URL is asked for first, then the token, then the
/// identifiers.
pub open spec fn search_preparation(config: ConfigView, names: Seq<Seq<char>>, query: Seq<char>)
    -> Result<SearchRequestView, SearchErrorView> {
    match (config.base_url, config.token) {
        (None, _) => Err(SearchErrorView::MissingBaseUrl),
        (Some(_), None) => Err(SearchErrorView::MissingToken),
        (Some(base_url), Some(token)) => if names.len() == 0 {
            Err(SearchErrorView::NotIndexed)
        } else {
            Ok(
                SearchRequestView {
                    url: retrieval_url(base_url),
                    authorization: bearer(token),
                    information_request: query,
                    added_blobs: names,
                },
            )
        },
    }
}

/// The text shown where the backend found nothing.
pub open spec fn no_context_text() -> Seq<char> {
    "No relevant code context found for your query."@
}

/// The text of a search whose answer holds `formatted`: the answer's text, or, where it
/// holds none or an empty one, the text that says so.
pub open spec fn result_text(formatted: Option<Seq<char>>) -> Seq<char> {
    match formatted {
        Some(text) => if text.len() == 0 {
            no_context_text()
        } else {
            text
        },
        None => no_context_text(),
    }
}

/// Prepares the search of `query` in the project whose canonical root is
/// `canonical_root`: the request to send, or the reason why none is sent.
pub fn search_only(
    config: &AcemcpConfig,
    registry: &ProjectRegistry,
    canonical_root: &str,
    query: &str,
) -> (prepared: Result<SearchRequest, SearchError>)
    requires
        registry.wf(),
    ensures
        match prepared {
            Ok(request) => Ok(request@),
            Err(error) => Err(error@),
        } == search_preparation(
            config@,
            registry.names_of(normalized_path(canonical_root@)),
            query@,
        ),
{
    let base_url = match &config.base_url {
        Some(url) => url,
        None => {
            return Err(SearchError::MissingBaseUrl);
        },
    };
    let token = match &config.token {
        Some(token) => token,
        None => {
            return Err(SearchError::MissingToken);
        },
    };
    let names = registry.blob_names(canonical_root);
    assert(names.deep_view().len() == names@.len());
    if names.len() == 0 {
        return Err(SearchError::NotIndexed);
    }
    Ok(
        SearchRequest {
            url: joined(base_url.as_str(), "/agents/codebase-retrieval"),
            authorization: joined("Bearer ", token.as_str()),
            information_request: String::from_str(query),
            added_blobs: names,
        },
    )
}

/// The text of a search whose answer holds `formatted`.
pub fn search_result_text(formatted: Option<&str>) -> (text: String)
    ensures
        text@ == result_text(
            match formatted {
                Some(t) => Some(t@),
                None => None,
            },
        ),
{
    match formatted {
        Some(found) => {
            if found.is_empty() {
                String::from_str("No relevant code context found for your query.")
            } else {
                String::from_str(found)
            }
        },
        None => String::from_str("No relevant code context found for your query."),
    }
}

/// What a search does before it asks the backend.
#[derive(Clone, Copy, Debug, PartialEq, Eq, Structural)]
pub enum SearchPlan {
    /// Nothing: the search is made at once.
    SearchNow,
    /// An indexing run is started in the background, and the search is made at once on
    /// what the registry holds.
    StartBackgroundIndex,
    /// The search waits this many seconds for the indexing run in progress.
    Wait { seconds: u64 },
}

/// What a search does in `state`, where `sampled` is the wait drawn from `wait_range`.
pub open spec fn search_plan(
    state: InitialIndexState,
    wait_range: Option<(u64, u64)>,
    sampled: u64,
) -> SearchPlan {
    if needs_background_index(state) {
        SearchPlan::StartBackgroundIndex
    } else if state == InitialIndexState::Indexing && wait_range is Some {
        SearchPlan::Wait { seconds: sampled }
    } else {
        SearchPlan::SearchNow
    }
}

/// The hint that an indexing run has been started in the background.
pub open spec fn background_hint() -> Seq<char> {
    "\n\n💡 提示：当前项目索引尚未完全初始化，已在后台启动索引，稍后搜索结果会更完整。"@
}

/// The hint that the search has waited `seconds` seconds.
pub open spec fn wait_hint(seconds: u64) -> Seq<char> {
    "\n\n💡 提示：检测到索引正在进行中，已等待 "@ + decimal(seconds as nat)
        + " 秒以获取更完整的搜索结果。"@
}

/// The hint that follows a search's result: none where the search was made at once, and
/// none where the run in the background could not be started.
pub open spec fn plan_hint(plan: SearchPlan, background_started: bool) -> Seq<char> {
    match plan {
        SearchPlan::SearchNow => Seq::empty(),
        SearchPlan::StartBackgroundIndex => if background_started {
            background_hint()
        } else {
            Seq::empty()
        },
        SearchPlan::Wait { seconds } => wait_hint(seconds),
    }
}

/// What a tool hands back to its caller.
pub struct ToolReply {
    pub text: String,
    pub is_error: bool,
}

/// The mathematical value of a [`ToolReply`].
pub struct ReplyView {
    pub text: Seq<char>,
    pub is_error: bool,
}

impl View for ToolReply {
    type V = ReplyView;

    open spec fn view(&self) -> ReplyView {
        ReplyView { text: self.text@, is_error: self.is_error }
    }
}

/// The reply of a search that ended in `outcome`, with `hint` behind its result.
pub open spec fn search_reply(outcome: Result<Seq<char>, SearchErrorView>, hint: Seq<char>)
    -> ReplyView {
    match outcome {
        Ok(text) => ReplyView { text: text + hint, is_error: false },
        Err(error) => ReplyView {
            text: "Acemcp搜索失败: "@ + search_error_message(error),
            is_error: true,
        },
    }
}

/// The reply of a search that followed an indexing run and ended in `outcome`.
pub open spec fn legacy_search_reply(outcome: Result<Seq<char>, SearchErrorView>) -> ReplyView {
    match outcome {
        Ok(text) => ReplyView { text, is_error: false },
        Err(error) => ReplyView { text: "搜索失败: "@ + search_error_message(error), is_error: true },
    }
}

/// The reply of an indexing run that failed with `error`.
pub open spec fn index_failure_reply(error: IndexError, project_root: Seq<char>) -> ReplyView {
    ReplyView {
        text: "索引更新失败: "@ + index_error_message(error, project_root),
        is_error: true,
    }
}

/// The report of an indexing run that was asked for by hand.
pub open spec fn index_report(
    outcome: Result<Seq<Seq<char>>, IndexError>,
    project_root: Seq<char>,
) -> Result<Seq<char>, Seq<char>> {
    match outcome {
        Ok(names) => Ok("索引更新成功，共 "@ + decimal(names.len()) + " 个 blobs"@),
        Err(error) => Err("索引更新失败: "@ + index_error_message(error, project_root)),
    }
}

/// `rand::Rng::gen_range` on `rand::thread_rng()`, with the range from `min` to `max`,
/// both included: a number of that range, drawn at random. The outside function fails
/// on an empty range, which `requires` leaves out, and else only where the system
/// gives no random numbers.
#[verifier::external_body]
fn sample_between(min: u64, max: u64) -> (sampled: u64)
    requires
        min <= max,
    ensures
        min <= sampled <= max,
{
    rand::Rng::gen_range(&mut rand::thread_rng(), min..=max)
}

/// What a search does in `state`, where `sampled` is the wait drawn from `wait_range`.
pub fn plan_search(state: InitialIndexState, wait_range: Option<(u64, u64)>, sampled: u64) -> (plan:
    SearchPlan)
    ensures
        plan == search_plan(state, wait_range, sampled),
{
    match state {
        InitialIndexState::Missing | InitialIndexState::Idle | InitialIndexState::Failed => {
            SearchPlan::StartBackgroundIndex
        },
        InitialIndexState::Indexing => match wait_range {
            Some(_) => SearchPlan::Wait { seconds: sampled },
            None => SearchPlan::SearchNow,
        },
        InitialIndexState::Synced => SearchPlan::SearchNow,
    }
}

/// The hint that follows the result of a search with this plan.
pub fn hint_for(plan: SearchPlan, background_started: bool) -> (hint: String)
    ensures
        hint@ == plan_hint(plan, background_started),
{
    match plan {
        SearchPlan::SearchNow => String::new(),
        SearchPlan::StartBackgroundIndex => {
            if background_started {
                String::from_str(
                    "\n\n💡 提示：当前项目索引尚未完全初始化，已在后台启动索引，稍后搜索结果会更完整。",
                )
            } else {
                String::new()
            }
        },
        SearchPlan::Wait { seconds } => {
            let mut hint = String::from_str("\n\n💡 提示：检测到索引正在进行中，已等待 ");
            hint.append(decimal_text(seconds).as_str());
            hint.append(" 秒以获取更完整的搜索结果。");
            hint
        },
    }
}

/// The search-and-index tool.
pub struct AcemcpTool;

/// What follows the indexing run of the tool's older operation, which indexes first and
/// searches then.
pub enum LegacyStep {
    /// The run succeeded: the search is made.
    Search,
    /// The run failed: this is the reply.
    Reply(ToolReply),
}

impl AcemcpTool {
    /// What a search in the project whose canonical root is `canonical_root` does
    /// before it asks the backend. The wait of a search that finds a run in progress is
    /// drawn at random from the configured range.
    pub fn search_context(
        all: &ProjectsIndexStatus,
        canonical_root: &str,
        config: &AcemcpConfig,
    ) -> (plan: SearchPlan)
        requires
            all.wf(),
            derived_state(
                all.status_of(normalized_path(canonical_root@)).status,
                all.status_of(normalized_path(canonical_root@)).total_files,
            ) == InitialIndexState::Indexing ==> (config.smart_wait_range matches Some(range)
                ==> range.0 <= range.1),
        ensures
            exists|sampled: u64|
                (plan is Wait ==> (config.smart_wait_range matches Some(range) && range.0
                    <= sampled <= range.1)) && plan == search_plan(
                    derived_state(
                        all.status_of(normalized_path(canonical_root@)).status,
                        all.status_of(normalized_path(canonical_root@)).total_files,
                    ),
                    config.smart_wait_range,
                    sampled,
                ),
    {
        let state = get_initial_index_state(all, canonical_root);
        let sampled = match (state, config.smart_wait_range) {
            (InitialIndexState::Indexing, Some(range)) => sample_between(range.0, range.1),
            _ => 0,
        };
        plan_search(state, config.smart_wait_range, sampled)
    }

    /// The reply of a search that ended in `outcome` under `plan`.
    pub fn search_reply(
        outcome: Result<String, SearchError>,
        plan: SearchPlan,
        background_started: bool,
    ) -> (reply: ToolReply)
        ensures
            reply@ == search_reply(
                match outcome {
                    Ok(text) => Ok(text@),
                    Err(error) => Err(error@),
                },
                plan_hint(plan, background_started),
            ),
    {
        match outcome {
            Ok(text) => {
                let hint = hint_for(plan, background_started);
                ToolReply { text: joined(text.as_str(), hint.as_str()), is_error: false }
            },
            Err(error) => ToolReply {
                text: joined("Acemcp搜索失败: ", error.message().as_str()),
                is_error: true,
            },
        }
    }

    /// What follows the indexing run of the older operation of the project at
    /// `project_root`: the search, or the reply that tells of the run's failure.
    pub fn index_and_search_legacy(
        indexed: &Result<Vec<String>, IndexError>,
        project_root: &str,
    ) -> (step: LegacyStep)
        ensures
            indexed is Ok ==> step is Search,
            *indexed matches Err(error) ==> (step matches LegacyStep::Reply(reply) && reply@
                == index_failure_reply(error, project_root@)),
    {
        match indexed {
            Ok(_) => LegacyStep::Search,
            Err(error) => LegacyStep::Reply(
                ToolReply {
                    text: joined("索引更新失败: ", error.message(project_root).as_str()),
                    is_error: true,
                },
            ),
        }
    }

    /// The reply of the older operation whose search ended in `outcome`.
    pub fn legacy_search_reply(outcome: Result<String, SearchError>) -> (reply: ToolReply)
        ensures
            reply@ == legacy_search_reply(
                match outcome {
                    Ok(text) => Ok(text@),
                    Err(error) => Err(error@),
                },
            ),
    {
        match outcome {
            Ok(text) => ToolReply { text, is_error: false },
            Err(error) => ToolReply {
                text: joined("搜索失败: ", error.message().as_str()),
                is_error: true,
            },
        }
    }

    /// The report of the indexing run of the project at `project_root` that was asked
    /// for by hand and ended in `indexed`.
    pub fn trigger_index_update(indexed: &Result<Vec<String>, IndexError>, project_root: &str) -> (report:
        Result<String, String>)
        ensures
            match report {
                Ok(text) => Ok(text@),
                Err(text) => Err(text@),
            } == index_report(
                match *indexed {
                    Ok(names) => Ok(names.deep_view()),
                    Err(error) => Err(error),
                },
                project_root@,
            ),
    {
        match indexed {
            Ok(names) => {
                assert(names.deep_view().len() == names@.len());
                let mut text = String::from_str("索引更新成功，共 ");
                text.append(decimal_text(names.len() as u64).as_str());
                text.append(" 个 blobs");
                Ok(text)
            },
            Err(error) => Err(joined("索引更新失败: ", error.message(project_root).as_str())),
        }
    }

    /// The status record of the project whose canonical root is `canonical_root`.
    pub fn get_index_status(all: &ProjectsIndexStatus, canonical_root: &str) -> (status:
        ProjectIndexStatus)
        requires
            all.wf(),
        ensures
            status@ == all.status_of(normalized_path(canonical_root@)),
    {
        get_project_status(all, canonical_root)
    }

    /// The status records of all projects: those that were loaded, or none where nothing
    /// could be loaded.
    pub fn get_all_index_status(loaded: Option<ProjectsIndexStatus>) -> (all: ProjectsIndexStatus)
        requires
            loaded matches Some(stored) ==> stored.wf(),
        ensures
            all.wf(),
            loaded matches Some(stored) ==> all == stored,
            loaded is None ==> forall|key: Seq<char>| !all.projects.contains(key),
    {
        match loaded {
            Some(stored) => stored,
            None => ProjectsIndexStatus::new(),
        }
    }
}

} // verus!
