use discord_mcp::protocol::ErrorKind;
use discord_mcp::tool::{SendMessageRequest, Tool, ToolHandler, ToolRouter};

fn object(text: &str) -> serde_json::Map<String, serde_json::Value> {
    match serde_json::from_str::<serde_json::Value>(text).unwrap() {
        serde_json::Value::Object(map) => map,
        other => panic!("not an object: {}", other),
    }
}

fn tool(name: &str, description: &str) -> Tool {
    Tool {
        name: name.to_string(),
        description: description.to_string(),
        input_schema: object(r#"{"$schema": "s", "type": "object"}"#),
        output_schema: Some(object(r#"{"$schema": "s", "metadata": {"$schema": "m", "v": 1}}"#)),
        handler: ToolHandler::SendMessage,
    }
}

#[test]
fn input_schema_is_the_generated_one() {
    let expected = object(
        r#"{
            "$schema": "https://json-schema.org/draft/2020-12/schema",
            "title": "SendMessageRequest",
            "type": "object",
            "properties": {"content": {"type": "string"}},
            "required": ["content"]
        }"#,
    );
    assert_eq!(SendMessageRequest::input_schema(), expected);
}

#[test]
fn send_message_tool_is_described() {
    let tool = Tool::send_message();
    assert_eq!(tool.name, "send_message");
    assert_eq!(tool.description, "Send a message to the configured channel");
    assert_eq!(tool.input_schema, SendMessageRequest::input_schema());
    assert_eq!(tool.output_schema, None);
    assert_eq!(tool.handler, ToolHandler::SendMessage);
}

#[test]
fn arguments_with_content_are_accepted() {
    let request = SendMessageRequest::from_arguments(&object(r#"{"content": "hello"}"#)).unwrap();
    assert_eq!(request.content, "hello");
    let request = SendMessageRequest::from_arguments(&object(r#"{"content": ""}"#)).unwrap();
    assert_eq!(request.content, "");
}

#[test]
fn other_arguments_are_ignored() {
    let arguments = object(r#"{"extra": [1], "content": "hi", "Content": 5}"#);
    assert_eq!(SendMessageRequest::from_arguments(&arguments).unwrap().content, "hi");
}

#[test]
fn missing_content_is_invalid() {
    for text in ["{}", r#"{"Content": "x"}"#, r#"{"contents": "x"}"#] {
        let error = SendMessageRequest::from_arguments(&object(text)).unwrap_err();
        assert_eq!(error.kind, ErrorKind::InvalidParams);
        assert_eq!(error.message, "failed to deserialize parameters: missing field `content`");
        assert_eq!(error.data, None);
    }
}

#[test]
fn content_of_another_type_is_invalid() {
    for value in ["5", "null", "true", "[\"a\"]", "{\"text\": \"a\"}", "1.5"] {
        let text = format!(r#"{{"content": {}}}"#, value);
        let error = SendMessageRequest::from_arguments(&object(&text)).unwrap_err();
        assert_eq!(error.kind, ErrorKind::InvalidParams);
        assert_eq!(
            error.message,
            "failed to deserialize parameters: field `content` is not a string"
        );
        assert_eq!(error.data, None);
    }
}

#[test]
fn new_router_is_empty() {
    let router = ToolRouter::new();
    assert_eq!(router.len(), 0);
    assert_eq!(router.position("send_message"), None);
    assert!(router.get("send_message").is_none());
}

#[test]
fn routes_are_found_by_name() {
    let mut router = ToolRouter::new();
    router.add_route(tool("first", "one"));
    router.add_route(tool("second", "two"));
    assert_eq!(router.len(), 2);
    assert_eq!(router.position("first"), Some(0));
    assert_eq!(router.position("second"), Some(1));
    assert_eq!(router.position("third"), None);
    assert_eq!(router.position("First"), None);
    assert_eq!(router.get("second").unwrap().description, "two");
    assert_eq!(router.route(0).unwrap().name, "first");
    assert!(router.route(2).is_none());
    assert!(router.route(usize::MAX).is_none());
}

#[test]
fn a_name_is_registered_once() {
    let mut router = ToolRouter::new();
    router.add_route(tool("first", "one"));
    router.add_route(tool("second", "two"));
    router.add_route(tool("first", "replaced"));
    assert_eq!(router.len(), 2);
    assert_eq!(router.route(0).unwrap().name, "first");
    assert_eq!(router.route(0).unwrap().description, "replaced");
    assert_eq!(router.route(1).unwrap().name, "second");
}

#[test]
fn every_schema_of_the_router_is_stripped() {
    let mut router = ToolRouter::new();
    router.add_route(tool("first", "one"));
    router.add_route(Tool::send_message());
    router.strip_schema_urls();
    assert_eq!(router.len(), 2);
    let first = router.route(0).unwrap();
    assert_eq!(first.name, "first");
    assert_eq!(first.description, "one");
    assert_eq!(first.input_schema, object(r#"{"type": "object"}"#));
    assert_eq!(first.output_schema, Some(object(r#"{"metadata": {"v": 1}}"#)));
    let second = router.route(1).unwrap();
    assert_eq!(second.name, "send_message");
    assert!(!second.input_schema.contains_key("$schema"));
    assert_eq!(second.input_schema.len(), 4);
    assert_eq!(second.output_schema, None);
}
