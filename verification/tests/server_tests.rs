use discord_mcp::client::{HttpMethod, Outcome};
use discord_mcp::config::{Config, DiscordConfig, McpConfig};
use discord_mcp::protocol::{CallToolResult, ErrorKind, McpError, ServerCapabilities};
use discord_mcp::server::DiscordMcp;
use discord_mcp::tool::{SendMessageRequest, ToolHandler};
use discord_mcp::client::DeliveryError;

fn config(switch: Option<bool>) -> Config {
    Config {
        discord: DiscordConfig {
            bot_token: "tok".to_string(),
            channel_id: "77".to_string(),
            base_url: "http://127.0.0.1:9".to_string(),
        },
        mcp: switch.map(|flag| McpConfig { disable_schema_url: Some(flag) }),
    }
}

fn object(text: &str) -> serde_json::Map<String, serde_json::Value> {
    match serde_json::from_str::<serde_json::Value>(text).unwrap() {
        serde_json::Value::Object(map) => map,
        other => panic!("not an object: {}", other),
    }
}

#[test]
fn declared_registry_holds_send_message() {
    let router = DiscordMcp::tool_router();
    assert_eq!(router.len(), 1);
    assert_eq!(router.route(0).unwrap().name, "send_message");
}

#[test]
fn schema_is_advertised_as_generated_by_default() {
    for switch in [None, Some(false)] {
        let service = DiscordMcp::new(config(switch));
        assert_eq!(service.router().len(), 1);
        let tool = service.router().get("send_message").unwrap();
        assert_eq!(tool.description, "Send a message to the configured channel");
        assert_eq!(tool.input_schema, SendMessageRequest::input_schema());
        assert_eq!(
            tool.input_schema.get("$schema").and_then(|v| v.as_str()),
            Some("https://json-schema.org/draft/2020-12/schema")
        );
        assert_eq!(tool.output_schema, None);
    }
}

#[test]
fn schema_is_advertised_without_identifier_when_asked() {
    let service = DiscordMcp::new(config(Some(true)));
    assert_eq!(service.router().len(), 1);
    let tool = service.router().get("send_message").unwrap();
    assert_eq!(
        tool.input_schema,
        object(
            r#"{
                "title": "SendMessageRequest",
                "type": "object",
                "properties": {"content": {"type": "string"}},
                "required": ["content"]
            }"#
        )
    );
    assert_eq!(tool.output_schema, None);
    assert_eq!(tool.handler, ToolHandler::SendMessage);
}

#[test]
fn service_delivers_to_the_configured_destination() {
    let service = DiscordMcp::new(config(None));
    assert_eq!(service.client().base_url, "http://127.0.0.1:9");
    assert_eq!(service.client().channel_id, "77");
    assert_eq!(service.client().bot_token, "tok");
}

#[test]
fn info_offers_tools() {
    let info = DiscordMcp::new(config(None)).get_info();
    assert_eq!(
        info.instructions.as_deref(),
        Some("Discord MCP server that sends messages to a configured channel.")
    );
    assert_eq!(info.capabilities, ServerCapabilities { tools: true });
}

#[test]
fn hello_round_trip_is_acknowledged() {
    let service = DiscordMcp::new(config(None));
    let pending = service.call_tool("send_message", Some(object(r#"{"content": "hello"}"#))).unwrap();
    assert_eq!(pending.handler, ToolHandler::SendMessage);
    assert_eq!(pending.request.method, HttpMethod::Post);
    assert_eq!(pending.request.url, "http://127.0.0.1:9/channels/77/messages");
    assert_eq!(pending.request.authorization, "Bot tok");
    assert_eq!(pending.request.body, object(r#"{"content": "hello"}"#));
    let result = DiscordMcp::finish_call(pending.handler, Outcome::Responded(200)).unwrap();
    assert_eq!(result, CallToolResult { content: vec!["ok".to_string()], is_error: false });
}

#[test]
fn forbidden_is_reported_with_its_status() {
    let service = DiscordMcp::new(config(None));
    let pending = service.call_tool("send_message", Some(object(r#"{"content": "hello"}"#))).unwrap();
    let error = DiscordMcp::finish_call(pending.handler, Outcome::Responded(403)).unwrap_err();
    assert_eq!(error.kind, ErrorKind::InternalError);
    assert_eq!(error.message, "Discord API error");
    assert_eq!(error.data, Some(serde_json::Value::Object(object(r#"{"status": 403}"#))));
    let again = service.call_tool("send_message", Some(object(r#"{"content": "still here"}"#)));
    assert!(again.is_ok());
}

#[test]
fn unreachable_destination_is_an_internal_error() {
    let outcome = Outcome::Unreachable("error sending request: connection refused".to_string());
    let error = DiscordMcp::finish_call(ToolHandler::SendMessage, outcome).unwrap_err();
    assert_eq!(error.kind, ErrorKind::InternalError);
    assert_ne!(error.kind, ErrorKind::InvalidParams);
    assert_eq!(
        error.message,
        "Discord API request failed: error sending request: connection refused"
    );
    assert_eq!(error.data, None);
}

#[test]
fn unknown_tool_is_refused_before_anything_is_sent() {
    let service = DiscordMcp::new(config(None));
    for name in ["", "send", "send_message ", "Send_Message", "delete_message"] {
        let error = service.call_tool(name, Some(object(r#"{"content": "hello"}"#))).unwrap_err();
        assert_eq!(error.kind, ErrorKind::UnknownTool);
        assert_eq!(error.message, "tool not found");
        assert_eq!(error.data, None);
    }
}

#[test]
fn unknown_tool_wins_over_bad_input() {
    let service = DiscordMcp::new(config(None));
    let error = service.call_tool("nothing", None).unwrap_err();
    assert_eq!(error.kind, ErrorKind::UnknownTool);
}

#[test]
fn call_without_arguments_is_invalid() {
    let service = DiscordMcp::new(config(None));
    let error = service.call_tool("send_message", None).unwrap_err();
    assert_eq!(error.kind, ErrorKind::InvalidParams);
    assert_eq!(error.message, "failed to deserialize parameters: missing field `content`");
}

#[test]
fn call_with_wrong_type_is_invalid() {
    let service = DiscordMcp::new(config(None));
    let error = service.call_tool("send_message", Some(object(r#"{"content": 12}"#))).unwrap_err();
    assert_eq!(error.kind, ErrorKind::InvalidParams);
    assert_eq!(error.message, "failed to deserialize parameters: field `content` is not a string");
}

#[test]
fn call_with_blank_content_is_invalid() {
    let service = DiscordMcp::new(config(None));
    for content in ["", "   ", "\n\t"] {
        let mut arguments = serde_json::Map::new();
        arguments.insert("content".to_string(), serde_json::Value::String(content.to_string()));
        let error = service.call_tool("send_message", Some(arguments)).unwrap_err();
        assert_eq!(error.kind, ErrorKind::InvalidParams);
        assert_eq!(error.message, "content is empty or contains only whitespace");
        assert_eq!(error.data, None);
    }
}

#[test]
fn handler_halves_agree_with_the_call() {
    let service = DiscordMcp::new(config(Some(true)));
    let params = SendMessageRequest { content: "hi there".to_string() };
    let request = service.send_message_request(&params).unwrap();
    assert_eq!(request.url, "http://127.0.0.1:9/channels/77/messages");
    assert_eq!(request.body, object(r#"{"content": "hi there"}"#));
    let blank = SendMessageRequest { content: " ".to_string() };
    assert_eq!(service.send_message_request(&blank).unwrap_err().kind, ErrorKind::InvalidParams);
    assert_eq!(
        DiscordMcp::send_message_result(Outcome::Responded(204)),
        Ok(CallToolResult::ok())
    );
    let error = DiscordMcp::send_message_result(Outcome::Responded(500)).unwrap_err();
    assert_eq!(error.data, Some(serde_json::Value::Object(object(r#"{"status": 500}"#))));
}

#[test]
fn failed_deliveries_are_reported_by_class() {
    let blank = McpError::from_delivery(DeliveryError::InvalidInput);
    assert_eq!(blank.kind, ErrorKind::InvalidParams);
    assert_eq!(blank.message, "content is empty or contains only whitespace");
    assert_eq!(blank.data, None);
    let down = McpError::from_delivery(DeliveryError::UpstreamUnreachable("dns".to_string()));
    assert_eq!(down.kind, ErrorKind::InternalError);
    assert_eq!(down.message, "Discord API request failed: dns");
    assert_eq!(down.data, None);
    let rejected = McpError::from_delivery(DeliveryError::UpstreamRejected(429));
    assert_eq!(rejected.kind, ErrorKind::InternalError);
    assert_eq!(rejected.message, "Discord API error");
    let detail = rejected.data.unwrap();
    assert_eq!(detail.get("status").and_then(|v| v.as_u64()), Some(429));
    assert_eq!(detail.as_object().map(|m| m.len()), Some(1));
}

#[test]
fn protocol_errors_are_built_by_class() {
    let invalid = McpError::invalid_params("m".to_string(), None);
    assert_eq!(invalid, McpError { kind: ErrorKind::InvalidParams, message: "m".to_string(), data: None });
    let internal = McpError::internal_error("n".to_string(), Some(serde_json::Value::Null));
    assert_eq!(internal.kind, ErrorKind::InternalError);
    assert_eq!(internal.data, Some(serde_json::Value::Null));
    assert_eq!(McpError::unknown_tool().kind, ErrorKind::UnknownTool);
    let result = CallToolResult::success(vec!["a".to_string(), "b".to_string()]);
    assert_eq!(result.content, vec!["a".to_string(), "b".to_string()]);
    assert!(!result.is_error);
}

#[test]
fn classes_have_their_codes() {
    assert_eq!(ErrorKind::UnknownTool.code(), -32602);
    assert_eq!(ErrorKind::InvalidParams.code(), -32602);
    assert_eq!(ErrorKind::InternalError.code(), -32603);
}

#[test]
fn request_allows_thirty_seconds() {
    let service = DiscordMcp::new(config(None));
    let pending = service.call_tool("send_message", Some(object(r#"{"content": "x"}"#))).unwrap();
    assert_eq!(pending.request.timeout_seconds, 30);
    assert_eq!(discord_mcp::client::REQUEST_TIMEOUT_SECONDS, 30);
}
