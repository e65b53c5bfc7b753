use std::collections::HashMap;

use charta_mcp::adapter::{BasicMCPAdapter, MCPAdapter};
use charta_mcp::error::MCPError;
use charta_mcp::schema::{InputSchema, MCPToolSchema, SchemaFragment, SchemaProperty, SemanticType};

fn described_tool(name: &str, description: &str) -> MCPToolSchema {
    MCPToolSchema {
        name: name.to_string(),
        description: Some(description.to_string()),
        input_schema: None,
    }
}

#[test]
fn test_adapter() {
    let mut adapter = BasicMCPAdapter::new();
    adapter.register_tool(described_tool("test_tool", "Test tool"));

    let tools = adapter.list_tools().unwrap();
    assert_eq!(tools.len(), 1);
    assert_eq!(tools[0].name, "test_tool");
}

#[test]
fn test_missing_tool_reports_tool_not_found() {
    let adapter = BasicMCPAdapter::new();

    let schema = adapter.get_tool_schema("missing");
    assert!(matches!(schema, Err(MCPError::ToolNotFound(ref n)) if n == "missing"));

    let invoked = adapter.invoke_tool("missing", HashMap::new());
    assert!(matches!(invoked, Err(MCPError::ToolNotFound(ref n)) if n == "missing"));

    let inferred = adapter.infer_block_signature("missing");
    assert!(matches!(inferred, Err(MCPError::ToolNotFound(ref n)) if n == "missing"));
}

#[test]
fn test_list_tools_empty_registry() {
    let adapter = BasicMCPAdapter::new();
    let tools = adapter.list_tools().unwrap();
    assert!(tools.is_empty());
}

#[test]
fn test_register_replaces_entry_with_same_name() {
    let mut adapter = BasicMCPAdapter::new();
    adapter.register_tool(described_tool("echo", "first"));
    adapter.register_tool(described_tool("echo", "second"));

    let tools = adapter.list_tools().unwrap();
    assert_eq!(tools.len(), 1);
    assert_eq!(tools[0].name, "echo");
    assert_eq!(tools[0].description.as_deref(), Some("second"));
}

#[test]
fn test_get_tool_schema_returns_registration() {
    let mut adapter = BasicMCPAdapter::new();
    adapter.register_tool(described_tool("echo", "Echo tool"));

    let schema = adapter.get_tool_schema("echo").unwrap();
    assert_eq!(schema.name, "echo");
    assert_eq!(schema.description.as_deref(), Some("Echo tool"));
}

#[test]
fn test_invoke_known_tool_succeeds() {
    let mut adapter = BasicMCPAdapter::new();
    adapter.register_tool(described_tool("echo", "Echo tool"));

    let result = adapter.invoke_tool("echo", HashMap::new());
    assert!(result.is_ok());
}

#[test]
fn test_error_messages() {
    let adapter = BasicMCPAdapter::new();
    let err = match adapter.get_tool_schema("missing") {
        Err(e) => e,
        Ok(_) => panic!("missing tool must not resolve"),
    };
    assert_eq!(err.message(), "Tool not found: missing");

    assert_eq!(MCPError::Server("down".to_string()).message(), "MCP server error: down");
    assert_eq!(
        MCPError::SchemaInference("cycle".to_string()).message(),
        "Schema inference error: cycle"
    );
}

#[test]
fn test_adapter_infers_registered_tool() {
    let mut adapter = BasicMCPAdapter::new();
    adapter.register_tool(MCPToolSchema {
        name: "search".to_string(),
        description: None,
        input_schema: Some(InputSchema {
            keyword: Some("object".to_string()),
            properties: Some(vec![SchemaProperty {
                name: "query".to_string(),
                schema: SchemaFragment { keyword: Some("string".to_string()), items: None },
            }]),
        }),
    });

    let signature = adapter.infer_block_signature("search").unwrap();
    assert_eq!(signature.name, "MCP_search");
    assert_eq!(signature.effect, "MCP[\"search\"]");
    assert_eq!(signature.inputs.len(), 1);
    assert_eq!(signature.inputs[0].name, "query");
    assert_eq!(signature.inputs[0].type_, SemanticType::Text);
}
