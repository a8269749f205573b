//! Defaults and the tool declarations of a request.

use zach_agent::context::{find_tool_index, tool_definitions};
use zach_agent::{FunctionTool, ProviderTool, QueueMode, ToolDefinition, ToolExecutionMode, ToolSpec, TurnDecision, ToolCallDecision};

#[test]
fn defaults_match_documented_behavior() {
    assert_eq!(QueueMode::default(), QueueMode::OneAtATime);
    assert_eq!(ToolExecutionMode::default(), ToolExecutionMode::Parallel);
    assert_eq!(TurnDecision::default(), TurnDecision::Default);
    assert_eq!(ToolCallDecision::default(), ToolCallDecision::Allow);
}

#[test]
fn context_declares_local_and_provider_tools() {
    let mut functions: Vec<FunctionTool> = Vec::new();
    let mut providers: Vec<ProviderTool> = Vec::new();
    assert!(tool_definitions(&functions, &providers).is_none());

    functions.push(FunctionTool::new("echo", "{}".into()).with_description("原样返回"));
    providers.push(ProviderTool::new("openai.web_search", "web_search", "{}".into()));

    let definitions = tool_definitions(&functions, &providers).unwrap();
    assert_eq!(definitions.len(), 2);
    assert!(matches!(&definitions[0], ToolDefinition::Function(f) if f.name == "echo"));
    assert!(definitions[1].is_provider());
    assert_eq!(definitions[1].name(), "web_search");

    let tools = vec![ToolSpec { name: "echo".into(), title: None, execution_mode: None }];
    assert!(find_tool_index(&tools, "echo").is_some());
    assert!(find_tool_index(&tools, "missing").is_none());
}

#[test]
fn the_first_tool_with_a_name_wins() {
    let tools = vec![
        ToolSpec { name: "a".into(), title: None, execution_mode: None },
        ToolSpec { name: "b".into(), title: Some("first".into()), execution_mode: None },
        ToolSpec { name: "b".into(), title: Some("second".into()), execution_mode: None },
    ];
    assert_eq!(find_tool_index(&tools, "b"), Some(1));
}
