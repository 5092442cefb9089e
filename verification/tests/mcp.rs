use zeptoclaw::json::Json;
use zeptoclaw::tools::mcp::client::{HttpAnswer, HttpReply, Listing, McpClient};
use zeptoclaw::tools::mcp::protocol::{McpError, McpRequest, McpResponse, McpTool};

fn answer(result: Option<&str>, error: Option<&str>) -> HttpReply {
    HttpReply::Answered(HttpAnswer {
        status: 200,
        status_text: "200 OK".to_string(),
        body: None,
        response: Ok(McpResponse {
            result: result.map(|text| Json::parse(text).unwrap()),
            error: error.map(|message| McpError {
                message: message.to_string(),
            }),
        }),
    })
}

fn tool(name: &str) -> McpTool {
    McpTool {
        name: name.to_string(),
        description: Some("A test tool".to_string()),
        input_schema: Json::parse(r#"{"type": "object"}"#).unwrap(),
    }
}

fn asked(listing: Listing) -> McpRequest {
    match listing {
        Listing::Ask(request) => request,
        Listing::Known(_) => panic!("expected a request"),
    }
}

fn known(listing: Listing) -> Vec<McpTool> {
    match listing {
        Listing::Known(tools) => tools,
        Listing::Ask(_) => panic!("expected known tools"),
    }
}

#[test]
fn test_client_creation() {
    let client = McpClient::new("test-server", "http://localhost:8080", 30);
    assert_eq!(client.server_name(), "test-server");
    assert_eq!(client.url(), "http://localhost:8080");
}

#[test]
fn test_request_id_increments() {
    let mut client = McpClient::new("test", "http://localhost:8080", 30);
    let id1 = client.next_request_id();
    let id2 = client.next_request_id();
    let id3 = client.next_request_id();
    assert_eq!(id1, 1);
    assert_eq!(id2, 2);
    assert_eq!(id3, 3);
}

#[test]
fn test_invalidate_cache() {
    let mut client = McpClient::new("test", "http://localhost:8080", 30);
    assert!(client.tools_listed(Ok(vec![tool("test_tool")])).is_ok());
    assert!(client.cached_tools().is_some());
    client.invalidate_cache();
    assert!(client.cached_tools().is_none());
}

#[test]
fn test_client_default_timeout() {
    let c1 = McpClient::new("fast", "http://localhost:8080", 5);
    let c2 = McpClient::new("slow", "http://localhost:8080", 120);
    let c3 = McpClient::new("very-slow", "http://localhost:8080", 600);
    assert_eq!(c1.timeout_secs(), 5);
    assert_eq!(c2.timeout_secs(), 120);
    assert_eq!(c3.timeout_secs(), 600);
}

#[test]
fn test_server_name_accessor() {
    let client = McpClient::new("my-mcp-server", "http://example.com", 30);
    assert_eq!(client.server_name(), "my-mcp-server");
}

#[test]
fn test_url_accessor() {
    let client = McpClient::new("test", "https://mcp.example.com/rpc", 30);
    assert_eq!(client.url(), "https://mcp.example.com/rpc");
}

#[test]
fn handshake() {
    let mut client = McpClient::new("s", "u", 1);
    let request = client.initialize(Json::text("params"));
    assert_eq!(request.id, 1);
    assert_eq!(request.method, "initialize");
    assert_eq!(request.params.unwrap().as_str(), Some("params"));
    let result = client.initialized(answer(Some(r#"{"a":1}"#), None)).unwrap();
    assert_eq!(result.compact(), r#"{"a":1}"#);
    let result = client.initialized(answer(None, None)).unwrap();
    assert_eq!(result.compact(), "null");
    let e = client.initialized(answer(Some("1"), Some("no"))).unwrap_err();
    assert_eq!(e, "MCP initialize error: no");
}

#[test]
fn tools_are_asked_for_once() {
    let mut client = McpClient::new("s", "u", 1);
    let request = asked(client.list_tools());
    assert_eq!(request.id, 1);
    assert_eq!(request.method, "tools/list");
    assert!(request.params.is_none());
    let result = client.tools_reply(answer(Some("[]"), None)).unwrap();
    assert_eq!(result.compact(), "[]");
    let tools = client.tools_listed(Ok(vec![tool("a"), tool("b")])).unwrap_or_default();
    assert_eq!(tools.len(), 2);
    assert_eq!(client.call_tool("a", Json::Null).id, 2);
    let tools = known(client.list_tools());
    assert_eq!(tools[1].name, "b");
    assert_eq!(tools[1].description.as_deref(), Some("A test tool"));
    assert_eq!(tools[1].input_schema.compact(), r#"{"type":"object"}"#);
    client.invalidate_cache();
    assert_eq!(asked(client.list_tools()).id, 3);
}

#[test]
fn tools_that_cannot_be_listed() {
    let mut client = McpClient::new("s", "u", 1);
    let e = client.tools_reply(answer(None, None)).unwrap_err();
    assert_eq!(e, "No result in tools/list response");
    let e = client.tools_reply(answer(None, Some("down"))).unwrap_err();
    assert_eq!(e, "MCP tools/list error: down");
    match client.tools_listed(Err("bad".to_string())) {
        Ok(_) => panic!("expected an error"),
        Err(e) => assert_eq!(e, "Failed to parse tools list: bad"),
    }
    assert!(client.cached_tools().is_none());
}

#[test]
fn call_of_a_tool() {
    let mut client = McpClient::new("s", "u", 1);
    let request = client.call_tool("echo", Json::parse(r#"{"x":[1]}"#).unwrap());
    assert_eq!(request.id, 1);
    assert_eq!(request.method, "tools/call");
    assert_eq!(
        request.params.unwrap().compact(),
        r#"{"arguments":{"x":[1]},"name":"echo"}"#
    );
    let result = client.call_reply(answer(Some("7"), None)).unwrap();
    assert_eq!(result.as_u64(), Some(7));
    let e = client.call_reply(answer(None, None)).unwrap_err();
    assert_eq!(e, "No result in tools/call response");
    let e = client.call_reply(answer(None, Some("down"))).unwrap_err();
    assert_eq!(e, "MCP tools/call error: down");
    assert_eq!(client.tool_called(Ok(5u8)), Ok(5));
    assert_eq!(
        client.tool_called::<u8>(Err("bad".to_string())),
        Err("Failed to parse tool call result: bad".to_string())
    );
}

#[test]
fn failures_of_a_request() {
    let client = McpClient::new("s", "u", 1);
    let e = client
        .call_reply(HttpReply::Failed("refused".to_string()))
        .unwrap_err();
    assert_eq!(e, "HTTP request failed: refused");
    let refused = |status, body: Option<&str>| {
        client
            .call_reply(HttpReply::Answered(HttpAnswer {
                status,
                status_text: format!("{} Text", status),
                body: body.map(String::from),
                response: Err("eof".to_string()),
            }))
            .unwrap_err()
    };
    assert_eq!(refused(404, Some("gone")), "HTTP 404 Text from MCP server: gone");
    assert_eq!(refused(199, None), "HTTP 199 Text from MCP server: ");
    assert_eq!(refused(300, Some("x")), "HTTP 300 Text from MCP server: x");
    assert_eq!(refused(200, Some("x")), "Failed to parse MCP response: eof");
    assert_eq!(refused(299, Some("x")), "Failed to parse MCP response: eof");
}
