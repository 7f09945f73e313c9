use acemcp::config::McpConfig;
use acemcp::memory::{
    is_sou_enabled, try_trigger_background_index, ErrorKind, JiyiRequest, MemoryCategory,
    MemoryCommand, MemoryError, MemoryTool,
};
use acemcp::status::{update_project_status, ProjectsIndexStatus, StatusChange};
use acemcp::text_map::TextMap;

fn request(action: &str, content: &str, category: &str) -> JiyiRequest {
    JiyiRequest {
        project_path: String::from("/home/me/proj"),
        action: String::from(action),
        content: String::from(content),
        category: String::from(category),
    }
}

fn mcp(tools: &[(&str, bool)]) -> McpConfig {
    let mut switches = TextMap::new();
    for (name, on) in tools {
        switches.insert(String::from(*name), *on);
    }
    McpConfig {
        acemcp_base_url: None,
        acemcp_token: None,
        acemcp_batch_size: None,
        acemcp_max_lines_per_blob: None,
        acemcp_text_extensions: None,
        acemcp_exclude_patterns: None,
        tools: switches,
    }
}

#[test]
fn search_tool_is_on_where_its_switch_is_on() {
    assert!(is_sou_enabled(Some(&mcp(&[("sou", true)]))));
    assert!(is_sou_enabled(Some(&mcp(&[("ji", false), ("sou", true)]))));
}

#[test]
fn search_tool_is_off_where_its_switch_is_off_or_absent() {
    assert!(!is_sou_enabled(Some(&mcp(&[("sou", false)]))));
    assert!(!is_sou_enabled(Some(&mcp(&[("ji", true)]))));
    assert!(!is_sou_enabled(Some(&mcp(&[]))));
}

#[test]
fn search_tool_is_off_where_no_configuration_could_be_loaded() {
    assert!(!is_sou_enabled(None));
}

#[test]
fn memory_tool_starts_a_run_for_a_project_without_index() {
    let mut all = ProjectsIndexStatus::new();
    assert!(try_trigger_background_index(&all, "/p"));
    update_project_status(&mut all, "/p", StatusChange::Started);
    assert!(!try_trigger_background_index(&all, "/p"));
}

#[test]
fn remembering_keeps_content_and_kind() {
    match MemoryTool::jiyi(&request("记忆", "  use tabs  ", "rule")) {
        Ok(MemoryCommand::Remember { content, category }) => {
            assert_eq!(content, "  use tabs  ");
            assert_eq!(category, MemoryCategory::Rule);
        }
        _ => panic!("a note was expected"),
    }
}

#[test]
fn remembering_needs_content() {
    assert!(matches!(MemoryTool::jiyi(&request("记忆", "", "rule")), Err(MemoryError::MissingContent)));
    assert!(matches!(
        MemoryTool::jiyi(&request("记忆", " \n\t\u{3000}", "rule")),
        Err(MemoryError::MissingContent)
    ));
}

#[test]
fn recalling_needs_nothing_else() {
    assert!(matches!(MemoryTool::jiyi(&request("回忆", "", "")), Ok(MemoryCommand::Recall)));
}

#[test]
fn unknown_action_is_refused_with_its_name() {
    match MemoryTool::jiyi(&request("forget", "x", "rule")) {
        Err(MemoryError::UnknownAction { action }) => assert_eq!(action, "forget"),
        _ => panic!("an unknown action was expected"),
    }
    assert!(matches!(
        MemoryTool::jiyi(&request("", "x", "rule")),
        Err(MemoryError::UnknownAction { .. })
    ));
}

#[test]
fn kinds_are_told_by_their_names() {
    assert_eq!(MemoryCategory::from_name("rule"), MemoryCategory::Rule);
    assert_eq!(MemoryCategory::from_name("preference"), MemoryCategory::Preference);
    assert_eq!(MemoryCategory::from_name("pattern"), MemoryCategory::Pattern);
    assert_eq!(MemoryCategory::from_name("context"), MemoryCategory::Context);
}

#[test]
fn unknown_kind_stands_for_context() {
    assert_eq!(MemoryCategory::from_name("Rule"), MemoryCategory::Context);
    assert_eq!(MemoryCategory::from_name(""), MemoryCategory::Context);
    assert_eq!(MemoryCategory::from_name("something"), MemoryCategory::Context);
}

#[test]
fn kinds_are_written_out_by_their_names() {
    assert_eq!(MemoryCategory::Rule.name(), "Rule");
    assert_eq!(MemoryCategory::Preference.name(), "Preference");
    assert_eq!(MemoryCategory::Pattern.name(), "Pattern");
    assert_eq!(MemoryCategory::Context.name(), "Context");
    assert_eq!(format!("{:?}", MemoryCategory::Pattern), MemoryCategory::Pattern.name());
}

#[test]
fn answer_to_a_kept_note_tells_id_content_and_kind() {
    let hint = MemoryTool::index_hint(true);
    let reply = MemoryTool::remembered("42", "use tabs", MemoryCategory::Rule, &hint);
    assert!(!reply.is_error);
    assert_eq!(
        reply.text,
        "✅ 记忆已添加，ID: 42\n📝 内容: use tabs\n📂 分类: Rule\n\n💡 已为当前项目后台启动代码索引，以便后续 sou 工具使用。"
    );
    let plain = MemoryTool::remembered("7", "x", MemoryCategory::Context, &MemoryTool::index_hint(false));
    assert_eq!(plain.text, "✅ 记忆已添加，ID: 7\n📝 内容: x\n📂 分类: Context");
}

#[test]
fn answer_to_a_recall_is_what_is_known_and_the_hint() {
    let reply = MemoryTool::recalled("project notes", "\n\nhint");
    assert_eq!(reply.text, "project notes\n\nhint");
    assert!(!reply.is_error);
}

#[test]
fn errors_of_the_memory_tool_have_their_kinds() {
    let invalid_path = MemoryError::InvalidPath {
        reason: String::from("not absolute"),
        path: String::from("proj"),
    };
    assert_eq!(invalid_path.kind(), ErrorKind::InvalidParams);
    assert_eq!(MemoryError::MissingContent.kind(), ErrorKind::InvalidParams);
    assert_eq!(
        MemoryError::UnknownAction { action: String::from("x") }.kind(),
        ErrorKind::InvalidParams
    );
    assert_eq!(
        MemoryError::StoreUnavailable { reason: String::from("x") }.kind(),
        ErrorKind::Internal
    );
    assert_eq!(MemoryError::AddFailed { reason: String::from("x") }.kind(), ErrorKind::Internal);
    assert_eq!(MemoryError::RecallFailed { reason: String::from("x") }.kind(), ErrorKind::Internal);
}

#[test]
fn errors_of_the_memory_tool_have_their_messages() {
    let invalid_path = MemoryError::InvalidPath {
        reason: String::from("not absolute"),
        path: String::from("proj"),
    };
    assert_eq!(
        invalid_path.message(),
        "路径验证失败: not absolute\n原始路径: proj\n请检查路径格式是否正确，特别是 Windows 路径应使用正确的盘符格式（如 C:\\path）"
    );
    assert_eq!(
        MemoryError::StoreUnavailable { reason: String::from("disk full") }.message(),
        "创建记忆管理器失败: disk full"
    );
    assert_eq!(MemoryError::MissingContent.message(), "缺少记忆内容");
    assert_eq!(
        MemoryError::UnknownAction { action: String::from("forget") }.message(),
        "未知的操作类型: forget"
    );
    assert_eq!(
        MemoryError::AddFailed { reason: String::from("locked") }.message(),
        "添加记忆失败: locked"
    );
    assert_eq!(
        MemoryError::RecallFailed { reason: String::from("locked") }.message(),
        "获取项目信息失败: locked"
    );
}
