//! The registry of active and deferred tools.

use zach_agent::{AgentError, AsyncDeferredLoader, DeferredToolMeta, FunctionTool, ToolRegistry};

#[test]
fn active_tools_resolve_to_their_executor() {
    let mut registry: ToolRegistry<&'static str, ()> = ToolRegistry::new();
    let tool_def = FunctionTool::new(
        "add",
        r#"{"properties":{"a":{"type":"number"},"b":{"type":"number"}},"required":["a","b"],"type":"object"}"#.into(),
    )
    .with_description("计算两数之和");
    registry.register_tool(tool_def, "adder");
    assert!(registry.is_active("add"));
    assert!(!registry.is_deferred("add"));
    assert_eq!(registry.executor_for("add"), Ok(&"adder"));
    assert!(matches!(registry.executor_for("sub"), Err(AgentError::ToolNotFound(n)) if n == "sub"));

    registry.register_definition_only(FunctionTool::new("remote", "{}".into()));
    assert!(matches!(registry.executor_for("remote"), Err(AgentError::ToolExecutionFailed(n, _)) if n == "remote"));
    assert_eq!(registry.get_active_definitions().len(), 2);
}

#[test]
fn deferred_tools_move_to_the_active_pool_when_activated() {
    let mut registry: ToolRegistry<u8, AsyncDeferredLoader<fn(u8) -> u8>> = ToolRegistry::new();
    let deferred = DeferredToolMeta::new("search_database")
        .with_description("按关键字搜索数据库记录")
        .with_namespace("db_service");
    fn double(x: u8) -> u8 {
        x * 2
    }
    registry.register_deferred(deferred, AsyncDeferredLoader::new(double as fn(u8) -> u8));

    assert!(!registry.is_active("search_database"));
    assert!(registry.is_deferred("search_database"));
    assert!(registry.needs_activation("search_database"));
    let metas = registry.get_deferred_meta();
    assert_eq!(metas.len(), 1);
    assert_eq!(metas[0].name, "search_database");
    assert_eq!(metas[0].namespace.as_deref(), Some("db_service"));

    let (meta, loader) = registry.take_deferred("search_database").unwrap();
    assert_eq!(meta.name, "search_database");
    assert_eq!((loader.loader())(3), 6);
    registry.activate(
        "search_database",
        FunctionTool::new("search_database", "{}".into()).with_description("已动态加载的数据库搜索工具"),
        Some(1),
    );
    assert!(registry.is_active("search_database"));
    assert!(!registry.is_deferred("search_database"));
    assert!(!registry.needs_activation("search_database"));
    let all = registry.get_all_definitions();
    assert_eq!(all.len(), 1);
    assert_eq!(all[0].name(), "search_database");
    assert_eq!(registry.active_definition("search_database").unwrap().description.as_deref(), Some("已动态加载的数据库搜索工具"));
    assert!(registry.take_deferred("search_database").is_none());
}

#[test]
fn test_tool_registry_discovery_meta_tool() {
    let registry: ToolRegistry<(), ()> = ToolRegistry::new();
    let meta_tool = registry.create_discovery_meta_tool();
    assert_eq!(meta_tool.name, "discover_deferred_tool");
    assert!(meta_tool.description.is_some());
    let schema: serde_json::Value = serde_json::from_str(&meta_tool.input_schema).unwrap();
    assert_eq!(schema["required"][0], "tool_name");
    assert_eq!(schema["type"], "object");
}

#[test]
fn deferred_metadata_is_json_text() {
    let meta = DeferredToolMeta::new("x").with_metadata("{\"v\":1}".into());
    assert_eq!(meta.metadata.as_deref(), Some("{\"v\":1}"));
}

#[test]
fn registering_a_name_again_moves_it_last() {
    let mut registry: ToolRegistry<u8, ()> = ToolRegistry::new();
    registry.register_tool(FunctionTool::new("a", "{}".into()), 1);
    registry.register_tool(FunctionTool::new("b", "{}".into()), 2);
    registry.register_tool(FunctionTool::new("a", "{\"x\":1}".into()), 3);
    let names: Vec<String> = registry.get_active_definitions().into_iter().map(|d| d.name).collect();
    assert_eq!(names, ["b", "a"]);
    assert_eq!(registry.executor_for("a"), Ok(&3));
}
