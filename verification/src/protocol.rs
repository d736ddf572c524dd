//! The protocol's result and error shapes, and how a failed delivery is
//! reported in them.

use crate::client::DeliveryError;
use crate::json::{
    json_of, no_entries, object_insert, object_new, value_from_object, value_from_u16, Json,
    JsonNumber,
};
use vstd::prelude::*;

verus! {

/// The classes of error that a tool call can end in.
#[derive(Clone, Copy, PartialEq, Eq, Debug)]
pub enum ErrorKind {
    /// No tool of the requested name is registered.
    UnknownTool,
    /// The call's input does not fit the tool.
    InvalidParams,
    /// The tool could not do its work.
    InternalError,
}

impl ErrorKind {
    /// The JSON-RPC error code under which the class is reported. A call to
    /// an unknown tool is reported as a call with invalid parameters.
    pub open spec fn spec_code(self) -> int {
        match self {
            ErrorKind::UnknownTool => -32602,
            ErrorKind::InvalidParams => -32602,
            ErrorKind::InternalError => -32603,
        }
    }

    /// The JSON-RPC error code under which the class is reported.
    pub fn code(self) -> (code: i32)
        ensures
            code == self.spec_code(),
    {
        match self {
            ErrorKind::UnknownTool => -32602,
            ErrorKind::InvalidParams => -32602,
            ErrorKind::InternalError => -32603,
        }
    }
}

/// A protocol error: its class, a message for people, and structured detail
/// where there is any.
#[derive(Debug, PartialEq, Eq)]
pub struct McpError {
    pub kind: ErrorKind,
    pub message: String,
    pub data: Option<serde_json::Value>,
}

/// A protocol error as contracts see it.
pub struct McpErrorView {
    pub kind: ErrorKind,
    pub message: Seq<char>,
    pub data: Option<Json>,
}

impl View for McpError {
    type V = McpErrorView;

    open spec fn view(&self) -> McpErrorView {
        McpErrorView {
            kind: self.kind,
            message: self.message@,
            data: match self.data {
                Some(value) => Some(json_of(value)),
                None => None,
            },
        }
    }
}

/// The result of a tool call that ran: its text items, and whether they
/// describe a failure.
#[derive(Clone, Debug, PartialEq, Eq)]
pub struct CallToolResult {
    pub content: Vec<String>,
    pub is_error: bool,
}

/// A call result as contracts see it.
pub struct CallToolResultView {
    pub content: Seq<Seq<char>>,
    pub is_error: bool,
}

impl View for CallToolResult {
    type V = CallToolResultView;

    open spec fn view(&self) -> CallToolResultView {
        CallToolResultView { content: self.content.deep_view(), is_error: self.is_error }
    }
}

/// What the server can do. Tools are the only capability there is.
#[derive(Clone, Copy, PartialEq, Eq, Debug)]
pub struct ServerCapabilities {
    pub tools: bool,
}

/// What the server says of itself when a client connects.
#[derive(Clone, Debug, PartialEq, Eq)]
pub struct ServerInfo {
    pub instructions: Option<String>,
    pub capabilities: ServerCapabilities,
}

/// The acknowledgment of a delivered message: the one text `ok`.
pub open spec fn acknowledgment() -> CallToolResultView {
    CallToolResultView { content: seq!["ok"@], is_error: false }
}

/// The detail of a rejected delivery: the JSON object `{"status": status}`.
pub open spec fn status_detail(status: u16) -> Json {
    Json::Object(no_entries().insert("status"@, Json::Number(JsonNumber::Integer(status as int))))
}

/// How a failed delivery is reported. Blank content is the caller's fault;
/// an unreachable or rejecting platform is an internal error, the latter
/// with the status code as detail.
pub open spec fn protocol_error_of(error: DeliveryError) -> McpErrorView {
    match error {
        DeliveryError::InvalidInput => McpErrorView {
            kind: ErrorKind::InvalidParams,
            message: "content is empty or contains only whitespace"@,
            data: None,
        },
        DeliveryError::UpstreamUnreachable(description) => McpErrorView {
            kind: ErrorKind::InternalError,
            message: "Discord API request failed: "@ + description@,
            data: None,
        },
        DeliveryError::UpstreamRejected(status) => McpErrorView {
            kind: ErrorKind::InternalError,
            message: "Discord API error"@,
            data: Some(status_detail(status)),
        },
    }
}

impl McpError {
    /// An error of class `InvalidParams`.
    pub fn invalid_params(message: String, data: Option<serde_json::Value>) -> (error: McpError)
        ensures
            error.kind == ErrorKind::InvalidParams,
            error.message == message,
            error.data == data,
    {
        McpError { kind: ErrorKind::InvalidParams, message, data }
    }

    /// An error of class `InternalError`.
    pub fn internal_error(message: String, data: Option<serde_json::Value>) -> (error: McpError)
        ensures
            error.kind == ErrorKind::InternalError,
            error.message == message,
            error.data == data,
    {
        McpError { kind: ErrorKind::InternalError, message, data }
    }

    /// The error for a call to a tool that is not registered.
    pub fn unknown_tool() -> (error: McpError)
        ensures
            error@ == (McpErrorView {
                kind: ErrorKind::UnknownTool,
                message: "tool not found"@,
                data: None,
            }),
    {
        McpError {
            kind: ErrorKind::UnknownTool,
            message: String::from_str("tool not found"),
            data: None,
        }
    }

    /// Reports a failed delivery as a protocol error.
    pub fn from_delivery(error: DeliveryError) -> (reported: McpError)
        ensures
            reported@ == protocol_error_of(error),
    {
        match error {
            DeliveryError::InvalidInput => McpError::invalid_params(
                String::from_str("content is empty or contains only whitespace"),
                None,
            ),
            DeliveryError::UpstreamUnreachable(description) => {
                let mut message = String::from_str("Discord API request failed: ");
                message.append(description.as_str());
                McpError::internal_error(message, None)
            },
            DeliveryError::UpstreamRejected(status) => {
                let mut detail = object_new();
                let _ = object_insert(
                    &mut detail,
                    String::from_str("status"),
                    value_from_u16(status),
                );
                McpError::internal_error(
                    String::from_str("Discord API error"),
                    Some(value_from_object(detail)),
                )
            },
        }
    }
}

impl CallToolResult {
    /// A result that reports success with the given text items.
    pub fn success(content: Vec<String>) -> (result: CallToolResult)
        ensures
            result.content == content,
            !result.is_error,
    {
        CallToolResult { content, is_error: false }
    }

    /// The acknowledgment of a delivered message.
    pub fn ok() -> (result: CallToolResult)
        ensures
            result@ == acknowledgment(),
    {
        let mut content: Vec<String> = Vec::new();
        content.push(String::from_str("ok"));
        let result = CallToolResult::success(content);
        assert(result.content.deep_view() =~= seq!["ok"@]);
        result
    }
}

} // verus!
