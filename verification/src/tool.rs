//! How the search tool describes itself to its callers.

use crate::search::AcemcpTool;
use vstd::prelude::*;

verus! {

/// One parameter of a tool.
pub struct ToolParameter {
    pub name: String,
    /// The JSON type of the parameter.
    pub kind: String,
    pub description: String,
}

/// The mathematical value of a [`ToolParameter`].
pub struct ParameterView {
    pub name: Seq<char>,
    pub kind: Seq<char>,
    pub description: Seq<char>,
}

impl View for ToolParameter {
    type V = ParameterView;

    open spec fn view(&self) -> ParameterView {
        ParameterView { name: self.name@, kind: self.kind@, description: self.description@ }
    }
}

impl DeepView for ToolParameter {
    type V = ParameterView;

    open spec fn deep_view(&self) -> ParameterView {
        self@
    }
}

/// The description of a tool: its name, what it does, and the object that it takes.
pub struct ToolDefinition {
    pub name: String,
    pub description: String,
    /// The properties of the object that the tool takes.
    pub parameters: Vec<ToolParameter>,
    /// The names of the properties that a request has to give.
    pub required: Vec<String>,
}

/// The mathematical value of a [`ToolDefinition`].
pub struct DefinitionView {
    pub name: Seq<char>,
    pub description: Seq<char>,
    pub parameters: Seq<ParameterView>,
    pub required: Seq<Seq<char>>,
}

impl View for ToolDefinition {
    type V = DefinitionView;

    open spec fn view(&self) -> DefinitionView {
        DefinitionView {
            name: self.name@,
            description: self.description@,
            parameters: self.parameters.deep_view(),
            required: self.required.deep_view(),
        }
    }
}

/// The parameter that names the project.
pub open spec fn project_root_parameter() -> ParameterView {
    ParameterView {
        name: "project_root_path"@,
        kind: "string"@,
        description: "项目根目录的绝对路径，使用正斜杠(/)作为分隔符。例如：C:/Users/username/projects/myproject"@,
    }
}

/// The parameter that holds the query.
pub open spec fn query_parameter() -> ParameterView {
    ParameterView {
        name: "query"@,
        kind: "string"@,
        description: "用于查找相关代码上下文的自然语言搜索查询。此工具执行语义搜索并返回与查询匹配的代码片段。例如：'日志配置设置初始化logger'（查找日志设置代码）、'用户认证登录'（查找认证相关代码）、'数据库连接池'（查找数据库连接代码）、'错误处理异常'（查找错误处理模式）、'API端点路由'（查找API路由定义）。工具返回带有文件路径和行号的格式化文本片段，显示相关代码的位置。"@,
    }
}

/// The description of the search tool.
pub open spec fn search_tool_definition() -> DefinitionView {
    DefinitionView {
        name: "sou"@,
        description: "基于查询在特定项目中搜索相关的代码上下文。依赖后台增量索引与文件监听机制维护索引，并在索引进行中通过智能等待在实时性和响应速度之间做平衡。返回代码库中与查询语义相关的格式化文本片段。"@,
        parameters: seq![project_root_parameter(), query_parameter()],
        required: seq!["project_root_path"@, "query"@],
    }
}

impl AcemcpTool {
    /// The description of the search tool.
    pub fn get_tool_definition() -> (definition: ToolDefinition)
        ensures
            definition@ == search_tool_definition(),
    {
        let mut parameters: Vec<ToolParameter> = Vec::new();
        parameters.push(
            ToolParameter {
                name: String::from_str("project_root_path"),
                kind: String::from_str("string"),
                description: String::from_str(
                    "项目根目录的绝对路径，使用正斜杠(/)作为分隔符。例如：C:/Users/username/projects/myproject",
                ),
            },
        );
        parameters.push(
            ToolParameter {
                name: String::from_str("query"),
                kind: String::from_str("string"),
                description: String::from_str(
                    "用于查找相关代码上下文的自然语言搜索查询。此工具执行语义搜索并返回与查询匹配的代码片段。例如：'日志配置设置初始化logger'（查找日志设置代码）、'用户认证登录'（查找认证相关代码）、'数据库连接池'（查找数据库连接代码）、'错误处理异常'（查找错误处理模式）、'API端点路由'（查找API路由定义）。工具返回带有文件路径和行号的格式化文本片段，显示相关代码的位置。",
                ),
            },
        );
        let mut required: Vec<String> = Vec::new();
        required.push(String::from_str("project_root_path"));
        required.push(String::from_str("query"));
        assert(parameters.deep_view() =~= seq![project_root_parameter(), query_parameter()]);
        assert(required.deep_view() =~= seq!["project_root_path"@, "query"@]);
        ToolDefinition {
            name: String::from_str("sou"),
            description: String::from_str(
                "基于查询在特定项目中搜索相关的代码上下文。依赖后台增量索引与文件监听机制维护索引，并在索引进行中通过智能等待在实时性和响应速度之间做平衡。返回代码库中与查询语义相关的格式化文本片段。",
            ),
            parameters,
            required,
        }
    }
}

} // verus!
