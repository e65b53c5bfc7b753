use charta_mcp::client::MCPClient;
use charta_mcp::discovery::{list_servers, MCPConfig, MCPServer};

fn server(name: &str) -> MCPServer {
    MCPServer { name: name.to_string(), command: None, args: None, env: None }
}

#[test]
fn test_list_servers_names_in_order() {
    let config = MCPConfig { servers: vec![server("server1"), server("server2")] };
    let names = list_servers(&config);
    assert_eq!(names, vec!["server1".to_string(), "server2".to_string()]);
}

#[test]
fn test_list_servers_empty() {
    let config = MCPConfig { servers: Vec::new() };
    assert!(list_servers(&config).is_empty());
}

#[test]
fn test_client_placeholder() {
    let mut client = MCPClient::new();
    assert!(client.connect().is_ok());
    let tools = client.list_tools().unwrap();
    assert!(tools.is_empty());
}
