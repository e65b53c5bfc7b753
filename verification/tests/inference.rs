use charta_mcp::schema::{
    infer_block_signature, infer_type, InputSchema, MCPToolSchema, SchemaFragment, SchemaProperty,
    SemanticType,
};

fn scalar(keyword: &str) -> SchemaFragment {
    SchemaFragment { keyword: Some(keyword.to_string()), items: None }
}

fn array_of(items: Option<SchemaFragment>) -> SchemaFragment {
    SchemaFragment { keyword: Some("array".to_string()), items: items.map(Box::new) }
}

fn tool(name: &str, properties: Option<Vec<SchemaProperty>>) -> MCPToolSchema {
    MCPToolSchema {
        name: name.to_string(),
        description: None,
        input_schema: Some(InputSchema { keyword: Some("object".to_string()), properties }),
    }
}

fn property(name: &str, schema: SchemaFragment) -> SchemaProperty {
    SchemaProperty { name: name.to_string(), schema }
}

#[test]
fn test_infer_block_signature() {
    let tool = MCPToolSchema {
        name: "search".to_string(),
        description: Some("Search tool".to_string()),
        input_schema: Some(InputSchema {
            keyword: Some("object".to_string()),
            properties: Some(vec![
                property("query", scalar("string")),
                property("limit", scalar("integer")),
            ]),
        }),
    };

    let signature = infer_block_signature(&tool).unwrap();
    assert_eq!(signature.name, "MCP_search");
    assert_eq!(signature.inputs.len(), 2);
    assert_eq!(signature.effect, "MCP[\"search\"]");
}

#[test]
fn test_type_mapping_table() {
    assert_eq!(infer_type(&scalar("string")), Some(SemanticType::Text));
    assert_eq!(infer_type(&scalar("integer")), Some(SemanticType::Int));
    assert_eq!(infer_type(&scalar("number")), Some(SemanticType::Float));
    assert_eq!(infer_type(&scalar("boolean")), Some(SemanticType::Bool));
    assert_eq!(
        infer_type(&array_of(Some(scalar("string")))),
        Some(SemanticType::List(Box::new(SemanticType::Text)))
    );
    assert_eq!(
        infer_type(&array_of(None)),
        Some(SemanticType::List(Box::new(SemanticType::Any)))
    );
    assert_eq!(infer_type(&scalar("object")), Some(SemanticType::Any));
    assert_eq!(infer_type(&scalar("something-else")), Some(SemanticType::Any));
    // An empty fragment yields no type at all; the engine substitutes `Any`.
    assert_eq!(infer_type(&SchemaFragment { keyword: None, items: None }), None);
}

#[test]
fn test_empty_fragment_port_gets_any() {
    let t = tool("opaque", Some(vec![property("blob", SchemaFragment { keyword: None, items: None })]));
    let signature = infer_block_signature(&t).unwrap();
    assert_eq!(signature.inputs.len(), 1);
    assert_eq!(signature.inputs[0].name, "blob");
    assert_eq!(signature.inputs[0].type_, SemanticType::Any);
}

#[test]
fn test_totality_without_schema() {
    let t = MCPToolSchema { name: "bare".to_string(), description: None, input_schema: None };
    let signature = infer_block_signature(&t).unwrap();
    assert_eq!(signature.inputs.len(), 0);
    assert_eq!(signature.outputs.len(), 1);
    assert_eq!(signature.outputs[0].name, "result");
    assert_eq!(signature.outputs[0].type_, SemanticType::Any);
}

#[test]
fn test_totality_without_properties() {
    let t = MCPToolSchema {
        name: "plain".to_string(),
        description: None,
        input_schema: Some(InputSchema { keyword: Some("object".to_string()), properties: None }),
    };
    let signature = infer_block_signature(&t).unwrap();
    assert_eq!(signature.inputs.len(), 0);
    assert_eq!(signature.outputs.len(), 1);
    assert_eq!(signature.outputs[0].name, "result");
    assert_eq!(signature.outputs[0].type_, SemanticType::Any);
}

#[test]
fn test_render_nested_list() {
    let ty = SemanticType::List(Box::new(SemanticType::List(Box::new(SemanticType::Int))));
    assert_eq!(ty.render(), "list[list[Int]]");
    assert_eq!(SemanticType::Text.render(), "Text");
    assert_eq!(SemanticType::Any.render(), "Any");
}

#[test]
fn test_determinism_repeated_calls() {
    let make = || {
        tool(
            "twice",
            Some(vec![
                property("a", scalar("boolean")),
                property("b", array_of(Some(scalar("number")))),
            ]),
        )
    };
    let first = infer_block_signature(&make()).unwrap();
    let second = infer_block_signature(&make()).unwrap();
    assert_eq!(first, second);
}

#[test]
fn test_identity_injective_example() {
    let one = infer_block_signature(&tool("alpha", None)).unwrap();
    let two = infer_block_signature(&tool("beta", None)).unwrap();
    assert_ne!(one.name, two.name);
    assert_ne!(one.effect, two.effect);
}

#[test]
fn test_end_to_end_example() {
    let t = tool(
        "search",
        Some(vec![
            property("query", scalar("string")),
            property("limit", scalar("integer")),
        ]),
    );
    let signature = infer_block_signature(&t).unwrap();
    assert_eq!(signature.name, "MCP_search");
    assert_eq!(signature.inputs.len(), 2);
    assert_eq!(signature.inputs[0].name, "query");
    assert_eq!(signature.inputs[0].type_, SemanticType::Text);
    assert_eq!(signature.inputs[1].name, "limit");
    assert_eq!(signature.inputs[1].type_, SemanticType::Int);
    assert_eq!(signature.outputs.len(), 1);
    assert_eq!(signature.outputs[0].name, "result");
    assert_eq!(signature.outputs[0].type_, SemanticType::Any);
    assert_eq!(signature.effect, "MCP[\"search\"]");
}
