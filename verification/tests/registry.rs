use codemaster::agent::registry::ToolRegistry;
use codemaster::api::deepseek::ToolFunction;

fn function(name: &str, description: &str) -> ToolFunction {
    ToolFunction {
        name: name.to_string(),
        description: description.to_string(),
        parameters: serde_json::from_str("{\"type\":\"object\",\"required\":[\"path\"]}").unwrap(),
    }
}

#[test]
fn empty_registry_offers_nothing() {
    let registry: ToolRegistry<i32> = ToolRegistry::new();
    assert!(registry.to_api_tools().is_empty());
    assert_eq!(registry.get("bash"), None);
    assert!(!registry.contains("bash"));
}

#[test]
fn registered_tool_is_found_by_name() {
    let mut registry = ToolRegistry::new();
    registry.register(function("read_file", "reads"), 1);
    registry.register(function("bash", "runs"), 2);
    assert_eq!(registry.get("read_file"), Some(&1));
    assert_eq!(registry.get("bash"), Some(&2));
    assert_eq!(registry.get("grep"), None);
    assert!(registry.contains("bash"));
    assert!(!registry.contains("Bash"));
}

#[test]
fn last_registration_for_a_name_wins() {
    let mut registry = ToolRegistry::new();
    registry.register(function("bash", "old"), 1);
    registry.register(function("grep", "search"), 2);
    registry.register(function("bash", "new"), 3);
    assert_eq!(registry.get("bash"), Some(&3));
    assert_eq!(registry.get("grep"), Some(&2));
    let tools = registry.to_api_tools();
    assert_eq!(tools.len(), 2);
    assert_eq!(tools[0].function.name, "bash");
    assert_eq!(tools[0].function.description, "new");
    assert_eq!(tools[1].function.name, "grep");
}

#[test]
fn advertisement_keeps_registration_order_and_schemas() {
    let mut registry = ToolRegistry::new();
    for name in ["c", "a", "b"] {
        registry.register(function(name, name), ());
    }
    let tools = registry.to_api_tools();
    let names: Vec<&str> = tools.iter().map(|t| t.function.name.as_str()).collect();
    assert_eq!(names, vec!["c", "a", "b"]);
    for tool in &tools {
        assert_eq!(tool.kind, "function");
        assert_eq!(tool.function.parameters, function("x", "x").parameters);
        assert_eq!(tool.function.parameters["required"][0], "path");
    }
}
