//! The memory tool: what it is asked to do, and what it answers.

use crate::config::McpConfig;
use crate::search::{ReplyView, ToolReply};
use crate::status::{ensure_initial_index_background, ProjectsIndexStatus};
use crate::text::{chars_of, joined, same_text, trim_bounds, trimmed};
use vstd::prelude::*;

verus! {

/// The kind of a note.
#[derive(Clone, Copy, Debug, PartialEq, Eq, Structural)]
pub enum MemoryCategory {
    Rule,
    Preference,
    Pattern,
    Context,
}

/// A request to the memory tool.
pub struct JiyiRequest {
    pub project_path: String,
    pub action: String,
    pub content: String,
    pub category: String,
}

/// What the memory tool is asked to do.
pub enum MemoryCommand {
    /// Keep a note of this content and kind.
    Remember { content: String, category: MemoryCategory },
    /// Tell what is known of the project.
    Recall,
}

/// The mathematical value of a [`MemoryCommand`].
pub enum MemoryCommandView {
    Remember { content: Seq<char>, category: MemoryCategory },
    Recall,
}

impl View for MemoryCommand {
    type V = MemoryCommandView;

    open spec fn view(&self) -> MemoryCommandView {
        match *self {
            MemoryCommand::Remember { content, category } => MemoryCommandView::Remember {
                content: content@,
                category,
            },
            MemoryCommand::Recall => MemoryCommandView::Recall,
        }
    }
}

/// Why the memory tool does not do what it was asked.
pub enum MemoryError {
    /// The project's path did not pass its check, for this reason.
    InvalidPath { reason: String, path: String },
    /// The memory store of the project could not be opened, for this reason.
    StoreUnavailable { reason: String },
    /// A note without content was to be kept.
    MissingContent,
    /// The action is not known.
    UnknownAction { action: String },
    /// The note could not be kept, for this reason.
    AddFailed { reason: String },
    /// What is known of the project could not be told, for this reason.
    RecallFailed { reason: String },
}

/// The mathematical value of a [`MemoryError`].
pub enum MemoryErrorView {
    InvalidPath { reason: Seq<char>, path: Seq<char> },
    StoreUnavailable { reason: Seq<char> },
    MissingContent,
    UnknownAction { action: Seq<char> },
    AddFailed { reason: Seq<char> },
    RecallFailed { reason: Seq<char> },
}

impl View for MemoryError {
    type V = MemoryErrorView;

    open spec fn view(&self) -> MemoryErrorView {
        match *self {
            MemoryError::InvalidPath { reason, path } => MemoryErrorView::InvalidPath {
                reason: reason@,
                path: path@,
            },
            MemoryError::StoreUnavailable { reason } => MemoryErrorView::StoreUnavailable {
                reason: reason@,
            },
            MemoryError::MissingContent => MemoryErrorView::MissingContent,
            MemoryError::UnknownAction { action } => MemoryErrorView::UnknownAction {
                action: action@,
            },
            MemoryError::AddFailed { reason } => MemoryErrorView::AddFailed { reason: reason@ },
            MemoryError::RecallFailed { reason } => MemoryErrorView::RecallFailed {
                reason: reason@,
            },
        }
    }
}

/// Whose fault an error is.
#[derive(Clone, Copy, Debug, PartialEq, Eq, Structural)]
pub enum ErrorKind {
    /// The request was wrong.
    InvalidParams,
    /// The tool failed.
    Internal,
}

/// Whose fault `error` is.
pub open spec fn memory_error_kind(error: MemoryErrorView) -> ErrorKind {
    match error {
        MemoryErrorView::InvalidPath { .. } => ErrorKind::InvalidParams,
        MemoryErrorView::MissingContent => ErrorKind::InvalidParams,
        MemoryErrorView::UnknownAction { .. } => ErrorKind::InvalidParams,
        MemoryErrorView::StoreUnavailable { .. } => ErrorKind::Internal,
        MemoryErrorView::AddFailed { .. } => ErrorKind::Internal,
        MemoryErrorView::RecallFailed { .. } => ErrorKind::Internal,
    }
}

/// The message shown for `error`.
pub open spec fn memory_error_message(error: MemoryErrorView) -> Seq<char> {
    match error {
        MemoryErrorView::InvalidPath { reason, path } => "路径验证失败: "@ + reason
            + "\n原始路径: "@ + path
            + "\n请检查路径格式是否正确，特别是 Windows 路径应使用正确的盘符格式（如 C:\\path）"@,
        MemoryErrorView::StoreUnavailable { reason } => "创建记忆管理器失败: "@ + reason,
        MemoryErrorView::MissingContent => "缺少记忆内容"@,
        MemoryErrorView::UnknownAction { action } => "未知的操作类型: "@ + action,
        MemoryErrorView::AddFailed { reason } => "添加记忆失败: "@ + reason,
        MemoryErrorView::RecallFailed { reason } => "获取项目信息失败: "@ + reason,
    }
}

/// The action that keeps a note.
pub open spec fn remember_action() -> Seq<char> {
    "记忆"@
}

/// The action that tells what is known.
pub open spec fn recall_action() -> Seq<char> {
    "回忆"@
}

/// The kind of a note that a request names; a name that is not known stands for
/// [`MemoryCategory::Context`].
pub open spec fn named_category(name: Seq<char>) -> MemoryCategory {
    if name == "rule"@ {
        MemoryCategory::Rule
    } else if name == "preference"@ {
        MemoryCategory::Preference
    } else if name == "pattern"@ {
        MemoryCategory::Pattern
    } else {
        MemoryCategory::Context
    }
}

/// How a kind of note is written out.
pub open spec fn category_name(category: MemoryCategory) -> Seq<char> {
    match category {
        MemoryCategory::Rule => "Rule"@,
        MemoryCategory::Preference => "Preference"@,
        MemoryCategory::Pattern => "Pattern"@,
        MemoryCategory::Context => "Context"@,
    }
}

/// What a request with this action, content and kind asks for.
pub open spec fn requested_command(action: Seq<char>, content: Seq<char>, category: Seq<char>)
    -> Result<MemoryCommandView, MemoryErrorView> {
    if action == remember_action() {
        if trimmed(content).len() == 0 {
            Err(MemoryErrorView::MissingContent)
        } else {
            Ok(MemoryCommandView::Remember { content, category: named_category(category) })
        }
    } else if action == recall_action() {
        Ok(MemoryCommandView::Recall)
    } else {
        Err(MemoryErrorView::UnknownAction { action })
    }
}

/// The hint that an indexing run has been started in the background, or nothing where
/// none has been.
pub open spec fn index_hint(started: bool) -> Seq<char> {
    if started {
        "\n\n💡 已为当前项目后台启动代码索引，以便后续 sou 工具使用。"@
    } else {
        Seq::empty()
    }
}

/// The answer to a note that has been kept under `id`.
pub open spec fn remembered_text(
    id: Seq<char>,
    content: Seq<char>,
    category: MemoryCategory,
    hint: Seq<char>,
) -> Seq<char> {
    "✅ 记忆已添加，ID: "@ + id + "\n📝 内容: "@ + content + "\n📂 分类: "@ + category_name(category)
        + hint
}

/// The name of the search tool among the tools' switches.
pub open spec fn sou_tool_name() -> Seq<char> {
    "sou"@
}

/// Whether the search tool is switched on: whether the configuration could be loaded and
/// holds a switch of that name which is on.
pub open spec fn sou_enabled(config: Option<&McpConfig>) -> bool {
    match config {
        Some(loaded) => loaded.tools.contains(sou_tool_name()) && loaded.tools.value_of(
            sou_tool_name(),
        ),
        None => false,
    }
}

/// Whether the search tool is switched on.
pub fn is_sou_enabled(config: Option<&McpConfig>) -> (enabled: bool)
    requires
        config matches Some(loaded) ==> loaded.tools.wf(),
    ensures
        enabled == sou_enabled(config),
{
    match config {
        Some(loaded) => match loaded.tools.get("sou") {
            Some(on) => *on,
            None => false,
        },
        None => false,
    }
}

/// Whether the memory tool starts an indexing run in the background for the project
/// whose canonical root is `canonical_root`.
pub fn try_trigger_background_index(all: &ProjectsIndexStatus, canonical_root: &str) -> (start:
    bool)
    requires
        all.wf(),
    ensures
        start == crate::status::needs_background_index(
            crate::status::derived_state(
                all.status_of(crate::path::normalized_path(canonical_root@)).status,
                all.status_of(crate::path::normalized_path(canonical_root@)).total_files,
            ),
        ),
{
    ensure_initial_index_background(all, canonical_root)
}

impl MemoryCategory {
    /// The kind of a note that a request names.
    pub fn from_name(name: &str) -> (category: MemoryCategory)
        ensures
            category == named_category(name@),
    {
        if same_text(name, "rule") {
            MemoryCategory::Rule
        } else if same_text(name, "preference") {
            MemoryCategory::Preference
        } else if same_text(name, "pattern") {
            MemoryCategory::Pattern
        } else {
            MemoryCategory::Context
        }
    }

    /// How this kind is written out.
    pub fn name(&self) -> (text: &'static str)
        ensures
            text@ == category_name(*self),
    {
        match self {
            MemoryCategory::Rule => "Rule",
            MemoryCategory::Preference => "Preference",
            MemoryCategory::Pattern => "Pattern",
            MemoryCategory::Context => "Context",
        }
    }
}

impl MemoryError {
    /// Whose fault this error is.
    pub fn kind(&self) -> (kind: ErrorKind)
        ensures
            kind == memory_error_kind(self@),
    {
        match self {
            MemoryError::InvalidPath { .. } => ErrorKind::InvalidParams,
            MemoryError::MissingContent => ErrorKind::InvalidParams,
            MemoryError::UnknownAction { .. } => ErrorKind::InvalidParams,
            MemoryError::StoreUnavailable { .. } => ErrorKind::Internal,
            MemoryError::AddFailed { .. } => ErrorKind::Internal,
            MemoryError::RecallFailed { .. } => ErrorKind::Internal,
        }
    }

    /// The message shown for this error.
    pub fn message(&self) -> (text: String)
        ensures
            text@ == memory_error_message(self@),
    {
        match self {
            MemoryError::InvalidPath { reason, path } => {
                let mut text = joined("路径验证失败: ", reason.as_str());
                text.append("\n原始路径: ");
                text.append(path.as_str());
                text.append(
                    "\n请检查路径格式是否正确，特别是 Windows 路径应使用正确的盘符格式（如 C:\\path）",
                );
                text
            },
            MemoryError::StoreUnavailable { reason } => joined(
                "创建记忆管理器失败: ",
                reason.as_str(),
            ),
            MemoryError::MissingContent => String::from_str("缺少记忆内容"),
            MemoryError::UnknownAction { action } => joined("未知的操作类型: ", action.as_str()),
            MemoryError::AddFailed { reason } => joined("添加记忆失败: ", reason.as_str()),
            MemoryError::RecallFailed { reason } => joined("获取项目信息失败: ", reason.as_str()),
        }
    }
}

/// The memory tool.
#[derive(Clone, Copy)]
pub struct MemoryTool;

impl MemoryTool {
    /// What `request` asks for.
    pub fn jiyi(request: &JiyiRequest) -> (command: Result<MemoryCommand, MemoryError>)
        ensures
            match command {
                Ok(c) => Ok(c@),
                Err(e) => Err(e@),
            } == requested_command(request.action@, request.content@, request.category@),
    {
        if same_text(request.action.as_str(), "记忆") {
            let content = chars_of(request.content.as_str());
            let (from, to) = trim_bounds(&content);
            if from == to {
                Err(MemoryError::MissingContent)
            } else {
                Ok(
                    MemoryCommand::Remember {
                        content: request.content.clone(),
                        category: MemoryCategory::from_name(request.category.as_str()),
                    },
                )
            }
        } else if same_text(request.action.as_str(), "回忆") {
            Ok(MemoryCommand::Recall)
        } else {
            Err(MemoryError::UnknownAction { action: request.action.clone() })
        }
    }

    /// The hint that an indexing run has been started in the background.
    pub fn index_hint(started: bool) -> (hint: String)
        ensures
            hint@ == index_hint(started),
    {
        if started {
            String::from_str("\n\n💡 已为当前项目后台启动代码索引，以便后续 sou 工具使用。")
        } else {
            String::new()
        }
    }

    /// The answer to a note that has been kept under `id`.
    pub fn remembered(id: &str, content: &str, category: MemoryCategory, hint: &str) -> (reply:
        ToolReply)
        ensures
            reply@ == (ReplyView {
                text: remembered_text(id@, content@, category, hint@),
                is_error: false,
            }),
    {
        let mut text = joined("✅ 记忆已添加，ID: ", id);
        text.append("\n📝 内容: ");
        text.append(content);
        text.append("\n📂 分类: ");
        text.append(category.name());
        text.append(hint);
        ToolReply { text, is_error: false }
    }

    /// The answer that tells what is known of the project.
    pub fn recalled(info: &str, hint: &str) -> (reply: ToolReply)
        ensures
            reply@ == (ReplyView { text: info@ + hint@, is_error: false }),
    {
        ToolReply { text: joined(info, hint), is_error: false }
    }
}

} // verus!
