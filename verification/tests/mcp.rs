use claide::mcp::{
    error_response, handle_initialize, handle_request, handle_tools_list, tools_call_response,
    ContentBlock, JsonValue, McpResponse, McpResult, RequestStep, ToolDefinition, ToolOutput,
    PROTOCOL_VERSION, SERVER_NAME, summary_counts,
};

fn s(x: &str) -> JsonValue {
    JsonValue::Str(x.to_string())
}

fn obj(members: Vec<(&str, JsonValue)>) -> JsonValue {
    JsonValue::Object(members.into_iter().map(|(k, v)| (k.to_string(), v)).collect())
}

fn member<'a>(v: &'a JsonValue, key: &str) -> &'a JsonValue {
    match v {
        JsonValue::Object(ms) => &ms.iter().find(|(k, _)| k == key).expect("member").1,
        _ => panic!("not an object"),
    }
}

fn text_of(v: &JsonValue) -> &str {
    match v {
        JsonValue::Str(t) => t,
        _ => panic!("not a string"),
    }
}

/// The kernel of the tests: one echo tool.
fn echo_definitions() -> Vec<ToolDefinition> {
    vec![ToolDefinition {
        name: "echo".to_string(),
        description: "Echoes back the provided message".to_string(),
        parameters: obj(vec![
            ("type", s("object")),
            ("properties", obj(vec![("message", obj(vec![("type", s("string"))]))])),
            ("required", JsonValue::Array(vec![s("message")])),
        ]),
    }]
}

fn echo_execute(name: &str, arguments: &JsonValue) -> Result<ToolOutput, String> {
    if name != "echo" {
        return Err(format!("Tool not found: {}", name));
    }
    let message = match arguments {
        JsonValue::Object(ms) => ms
            .iter()
            .find(|(k, _)| k == "message")
            .map(|(_, v)| text_of(v).to_string())
            .unwrap_or_default(),
        _ => String::new(),
    };
    Ok(ToolOutput { for_llm: message, is_error: false })
}

/// Runs a request to its response against the echo kernel.
fn respond(id: Option<u64>, method: &str, params: Option<JsonValue>) -> McpResponse {
    match handle_request(id, method, params, "1.2.3") {
        RequestStep::Respond(r) => r,
        RequestStep::ListTools => handle_tools_list(id, echo_definitions()),
        RequestStep::CallTool { name, arguments } => {
            tools_call_response(id, echo_execute(&name, &arguments))
        }
    }
}

fn call_result(resp: McpResponse) -> (Vec<String>, bool) {
    match resp.result.expect("should have result") {
        McpResult::ToolCall(c) => (
            c.content.into_iter().map(|b| match b { ContentBlock::Text { text } => text }).collect(),
            c.is_error,
        ),
        _ => panic!("expected a tool call result"),
    }
}

#[test]
fn test_handle_initialize_returns_server_info() {
    let resp = respond(Some(1), "initialize", None);
    assert!(resp.error.is_none());
    let result = match resp.result.expect("should have result") {
        McpResult::Value(v) => v,
        _ => panic!("expected a JSON value"),
    };
    assert_eq!(text_of(member(&result, "protocolVersion")), PROTOCOL_VERSION);
    assert_eq!(text_of(member(member(&result, "serverInfo"), "name")), SERVER_NAME);
    assert_eq!(text_of(member(member(&result, "serverInfo"), "version")), "1.2.3");
    assert!(matches!(member(member(&result, "capabilities"), "tools"), JsonValue::Object(_)));
}

#[test]
fn test_handle_tools_list_returns_kernel_tools() {
    let resp = respond(Some(2), "tools/list", None);
    assert!(resp.error.is_none());
    let tools = match resp.result.expect("should have result") {
        McpResult::Tools(l) => l.tools,
        _ => panic!("expected a tool list"),
    };
    assert_eq!(tools.len(), 1);
    assert_eq!(tools[0].name, "echo");
    assert_eq!(tools[0].description, Some("Echoes back the provided message".to_string()));
    assert!(matches!(tools[0].input_schema, JsonValue::Object(_)));
    assert_eq!(text_of(member(&tools[0].input_schema, "type")), "object");
}

#[test]
fn test_handle_tools_call_executes_echo() {
    let params = obj(vec![("name", s("echo")), ("arguments", obj(vec![("message", s("hello from MCP"))]))]);
    let resp = respond(Some(3), "tools/call", Some(params));
    assert!(resp.error.is_none());
    let (texts, is_error) = call_result(resp);
    assert!(!is_error);
    assert_eq!(texts, vec!["hello from MCP"]);
}

#[test]
fn test_handle_unknown_method_returns_error() {
    let resp = respond(Some(4), "unknown/method", None);
    assert!(resp.result.is_none());
    let err = resp.error.expect("should have error");
    assert_eq!(err.code, -32601);
    assert!(err.message.contains("Method not found"));
    assert_eq!(err.message, "Method not found: unknown/method");
}

#[test]
fn test_handle_tools_call_unknown_tool() {
    let params = obj(vec![("name", s("nonexistent_tool")), ("arguments", obj(vec![]))]);
    let resp = respond(Some(5), "tools/call", Some(params));
    assert!(resp.error.is_none());
    let (texts, is_error) = call_result(resp);
    assert!(is_error);
    assert!(texts[0].contains("Tool not found"));
    assert_eq!(texts[0], "Tool execution error: Tool not found: nonexistent_tool");
}

#[test]
fn test_handle_tools_call_missing_params() {
    let resp = respond(Some(6), "tools/call", None);
    assert!(resp.result.is_none());
    let err = resp.error.expect("should have error");
    assert_eq!(err.code, -32602);
    assert!(err.message.contains("Missing params"));
}

#[test]
fn test_handle_tools_call_missing_name() {
    let params = obj(vec![("arguments", obj(vec![]))]);
    let resp = respond(Some(7), "tools/call", Some(params));
    assert!(resp.result.is_none());
    let err = resp.error.expect("should have error");
    assert_eq!(err.code, -32602);
    assert!(err.message.contains("Missing 'name'"));
}

#[test]
fn test_handle_tools_call_name_not_a_string() {
    let params = obj(vec![("name", JsonValue::Bool(true))]);
    let resp = respond(Some(9), "tools/call", Some(params));
    assert_eq!(resp.error.expect("should have error").message, "Missing 'name' in tools/call params");
}

#[test]
fn test_handle_tools_call_without_arguments_passes_empty_object() {
    match handle_request(Some(10), "tools/call", Some(obj(vec![("name", s("echo"))])), "1") {
        RequestStep::CallTool { name, arguments } => {
            assert_eq!(name, "echo");
            assert!(matches!(arguments, JsonValue::Object(ms) if ms.is_empty()));
        }
        _ => panic!("expected a tool call"),
    }
}

#[test]
fn test_call_tool_result_content_structure() {
    let params = obj(vec![("name", s("echo")), ("arguments", obj(vec![("message", s("structured test"))]))]);
    let resp = respond(Some(8), "tools/call", Some(params));
    let (texts, is_error) = call_result(resp);
    assert_eq!(texts.len(), 1);
    assert_eq!(texts[0], "structured test");
    assert!(!is_error);
}

#[test]
fn test_tool_error_flag_is_kept() {
    let resp = tools_call_response(Some(1), Ok(ToolOutput { for_llm: "bad".to_string(), is_error: true }));
    let (texts, is_error) = call_result(resp);
    assert!(is_error);
    assert_eq!(texts, vec!["bad"]);
}

#[test]
fn test_handle_initialize_id_preserved() {
    let resp = respond(Some(42), "initialize", None);
    assert_eq!(resp.id, Some(42));
    assert_eq!(resp.jsonrpc, "2.0");
    let direct = handle_initialize(None, "v");
    assert_eq!(direct.id, None);
}

#[test]
fn test_handle_notifications_initialized() {
    let resp = respond(Some(2), "notifications/initialized", None);
    assert!(resp.error.is_none());
    assert!(matches!(resp.result, Some(McpResult::Value(JsonValue::Object(ref ms))) if ms.is_empty()));
}

#[test]
fn test_error_response_fields() {
    let resp = error_response(Some(11), -32000, "boom");
    assert_eq!(resp.jsonrpc, "2.0");
    assert_eq!(resp.id, Some(11));
    assert!(resp.result.is_none());
    let e = resp.error.unwrap();
    assert_eq!((e.code, e.message.as_str()), (-32000, "boom"));
    assert!(e.data.is_none());
}

#[test]
fn test_mcp_tool_mapping_from_tool_definition() {
    let resp = handle_tools_list(None, echo_definitions());
    let mcp_tools = match resp.result.expect("should have result") {
        McpResult::Tools(l) => l.tools,
        _ => panic!("expected a tool list"),
    };
    assert_eq!(mcp_tools.len(), 1);
    let tool = &mcp_tools[0];
    assert_eq!(tool.name, "echo");
    assert_eq!(tool.description, Some("Echoes back the provided message".to_string()));
    // Verify the schema structure
    assert_eq!(text_of(member(&tool.input_schema, "type")), "object");
    assert!(matches!(member(member(&tool.input_schema, "properties"), "message"), JsonValue::Object(_)));
}

#[test]
fn test_tools_list_keeps_order() {
    let mut defs = echo_definitions();
    defs.push(ToolDefinition { name: "second".to_string(), description: "2".to_string(), parameters: JsonValue::Null });
    defs.push(ToolDefinition { name: "third".to_string(), description: "3".to_string(), parameters: JsonValue::Null });
    let tools = match handle_tools_list(Some(3), defs).result.unwrap() {
        McpResult::Tools(l) => l.tools,
        _ => panic!("expected a tool list"),
    };
    let names: Vec<&str> = tools.iter().map(|t| t.name.as_str()).collect();
    assert_eq!(names, vec!["echo", "second", "third"]);
}

#[test]
fn test_summary_counts() {
    let c = obj(vec![
        ("models", obj(vec![("providers", obj(vec![("a", JsonValue::Null), ("b", JsonValue::Null)]))])),
        ("channels", obj(vec![("discord", obj(vec![])), ("telegram", obj(vec![])), ("slack", obj(vec![]))])),
    ]);
    assert_eq!(summary_counts(&c), (2, 3));
    assert_eq!(summary_counts(&obj(vec![])), (0, 0));
    assert_eq!(summary_counts(&obj(vec![("channels", JsonValue::Array(vec![]))])), (0, 0));
    assert_eq!(summary_counts(&JsonValue::Null), (0, 0));
}
