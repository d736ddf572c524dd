//! The tool service: the registry of tools, built from the configuration,
//! and the two steps of a tool call.
//!
//! A call is decided here and carried out elsewhere. `call_tool` looks the
//! tool up, validates the input and hands out the one request that the call
//! needs; the caller performs it and hands the outcome to `finish_call`,
//! which turns it into the call's result or error. A call that fails in the
//! first step has sent nothing.

use crate::client::{
    delivery_of, is_success, DeliveryError, DiscordClient, OutboundRequest, Outcome,
};
use crate::config::{schema_url_disabled, Config, DiscordConfigView};
use crate::json::{no_entries, object_new, object_of, Json, JsonNumber, JsonObject};
use crate::protocol::{
    acknowledgment, protocol_error_of, status_detail, CallToolResult, CallToolResultView,
    ErrorKind, McpError, McpErrorView, ServerCapabilities, ServerInfo,
};
use crate::schema::has_no_schema_url;
use crate::text::is_blank;
use crate::tool::{
    input_schema_model, is_registered, lemma_stripped_input_schema, lemma_tool_without_schema_url,
    names_are_unique, request_of, send_message_tool, SendMessageRequest, Tool, ToolHandler,
    ToolRouter, ToolView,
};
use vstd::prelude::*;

verus! {

/// The service: the client that delivers, and the tools on offer.
#[derive(Clone, Debug)]
pub struct DiscordMcp {
    discord: DiscordClient,
    tool_router: ToolRouter,
}

/// A call that passed lookup and validation and now waits for its one
/// request to be performed.
#[derive(Clone, Debug, PartialEq, Eq)]
pub struct PendingCall {
    /// The handler that will judge the outcome.
    pub handler: ToolHandler,
    /// The request to perform.
    pub request: OutboundRequest,
}

/// The tools that a service advertises, given the configuration's switch:
/// `send_message` alone, as generated, or without its schema identifier
/// when the switch is on.
pub open spec fn registry_for(disable_schema_url: bool) -> Seq<ToolView> {
    if disable_schema_url {
        seq![send_message_tool().without_schema_url()]
    } else {
        seq![send_message_tool()]
    }
}

/// The input of a call; a call without arguments has the empty object.
pub open spec fn arguments_of(arguments: Option<JsonObject>) -> Map<Seq<char>, Json> {
    match arguments {
        Some(object) => object_of(object),
        None => no_entries(),
    }
}

/// Whether the list holds a tool of this name with this handler.
pub open spec fn handles(tools: Seq<ToolView>, name: Seq<char>, handler: ToolHandler) -> bool {
    exists|i: int|
        0 <= i < tools.len() && (#[trigger] tools[i]).name == name && tools[i].handler == handler
}

/// The error for a tool that is not registered.
pub open spec fn unknown_tool() -> McpErrorView {
    McpErrorView { kind: ErrorKind::UnknownTool, message: "tool not found"@, data: None }
}

/// The first step of a call, decided: the content to deliver, or the error
/// that ends the call before anything is sent. The name is looked up first,
/// then the input is validated, then blank content is refused.
pub open spec fn call_start(tools: Seq<ToolView>, name: Seq<char>, arguments: Map<Seq<char>, Json>)
    -> Result<Seq<char>, McpErrorView> {
    if !is_registered(tools, name) {
        Err(unknown_tool())
    } else {
        match request_of(arguments) {
            Err(e) => Err(e),
            Ok(content) => if is_blank(content) {
                Err(protocol_error_of(DeliveryError::InvalidInput))
            } else {
                Ok(content)
            },
        }
    }
}

/// The second step of a call, decided: the acknowledgment after a success
/// status, the reported failure after anything else.
pub open spec fn call_end(outcome: Outcome) -> Result<CallToolResultView, McpErrorView> {
    match delivery_of(outcome) {
        Ok(_) => Ok(acknowledgment()),
        Err(e) => Err(protocol_error_of(e)),
    }
}

/// What a finished call stands for: the view of its result or of its error.
pub open spec fn finished_view(finished: Result<CallToolResult, McpError>) -> Result<
    CallToolResultView,
    McpErrorView,
> {
    match finished {
        Ok(result) => Ok(result@),
        Err(e) => Err(e@),
    }
}

impl DiscordMcp {
    /// The tools on offer, in the order of the registry.
    pub closed spec fn tools(&self) -> Seq<ToolView> {
        self.tool_router@
    }

    /// The destination that messages are delivered to.
    pub closed spec fn destination(&self) -> DiscordConfigView {
        self.discord@
    }

    /// The registry as declared, before the configuration has its say.
    pub fn tool_router() -> (router: ToolRouter)
        ensures
            router@ == seq![send_message_tool()],
            router.wf(),
    {
        let mut router = ToolRouter::new();
        router.add_route(Tool::send_message());
        router
    }

    /// Builds the service from the configuration. With the switch on, every
    /// advertised schema loses its schema identifier; otherwise the schemas
    /// are advertised as generated.
    pub fn new(config: Config) -> (service: DiscordMcp)
        ensures
            service.tools() == registry_for(schema_url_disabled(config.mcp)),
            names_are_unique(service.tools()),
            service.destination() == config.discord@,
    {
        let disable_schema_url = config.disable_schema_url();
        let mut tool_router = Self::tool_router();
        if disable_schema_url {
            tool_router.strip_schema_urls();
        }
        DiscordMcp { discord: DiscordClient::new(&config.discord), tool_router }
    }

    /// The registry, for listing the tools.
    pub fn router(&self) -> (router: &ToolRouter)
        ensures
            router@ == self.tools(),
    {
        &self.tool_router
    }

    /// The client, with the destination it delivers to.
    pub fn client(&self) -> (client: &DiscordClient)
        ensures
            client@ == self.destination(),
    {
        &self.discord
    }

    /// What the server says of itself: its instructions, and that tools are
    /// what it offers.
    pub fn get_info(&self) -> (info: ServerInfo)
        ensures
            info.instructions matches Some(text) && text@
                == "Discord MCP server that sends messages to a configured channel."@,
            info.capabilities == (ServerCapabilities { tools: true }),
    {
        ServerInfo {
            instructions: Some(
                String::from_str("Discord MCP server that sends messages to a configured channel."),
            ),
            capabilities: ServerCapabilities { tools: true },
        }
    }

    /// The `send_message` handler, first half: the request that delivers
    /// the content, or the reported refusal of blank content.
    pub fn send_message_request(&self, params: &SendMessageRequest) -> (request: Result<
        OutboundRequest,
        McpError,
    >)
        ensures
            is_blank(params.content@) ==> request is Err && request->Err_0@ == protocol_error_of(
                DeliveryError::InvalidInput,
            ),
            !is_blank(params.content@) ==> request is Ok && request->Ok_0.delivers(
                self.destination(),
                params.content@,
            ),
    {
        match self.discord.send_message_request(params.content.as_str()) {
            Ok(request) => Ok(request),
            Err(error) => Err(McpError::from_delivery(error)),
        }
    }

    /// The `send_message` handler, second half: the acknowledgment, or the
    /// reported failure.
    pub fn send_message_result(outcome: Outcome) -> (finished: Result<CallToolResult, McpError>)
        ensures
            finished_view(finished) == call_end(outcome),
    {
        match DiscordClient::send_message_result(outcome) {
            Ok(_) => Ok(CallToolResult::ok()),
            Err(error) => Err(McpError::from_delivery(error)),
        }
    }

    /// The first step of a tool call. `Ok` holds the one request that the
    /// call needs; `Err` ends the call with nothing sent.
    pub fn call_tool(&self, name: &str, arguments: Option<JsonObject>) -> (step: Result<
        PendingCall,
        McpError,
    >)
        ensures
            match step {
                Ok(pending) => {
                    &&& call_start(self.tools(), name@, arguments_of(arguments)) is Ok
                    &&& pending.request.delivers(
                        self.destination(),
                        call_start(self.tools(), name@, arguments_of(arguments))->Ok_0,
                    )
                    &&& handles(self.tools(), name@, pending.handler)
                },
                Err(e) => call_start(self.tools(), name@, arguments_of(arguments)) == Err::<
                    Seq<char>,
                    McpErrorView,
                >(e@),
            },
    {
        let tool = match self.tool_router.get(name) {
            Some(tool) => tool,
            None => { return Err(McpError::unknown_tool()); },
        };
        assert(handles(self.tools(), name@, tool.handler));
        let arguments = match arguments {
            Some(object) => object,
            None => object_new(),
        };
        match tool.handler {
            ToolHandler::SendMessage => {
                let params = match SendMessageRequest::from_arguments(&arguments) {
                    Ok(params) => params,
                    Err(error) => { return Err(error); },
                };
                match self.send_message_request(&params) {
                    Ok(request) => Ok(PendingCall { handler: ToolHandler::SendMessage, request }),
                    Err(error) => Err(error),
                }
            },
        }
    }

    /// The second step of a tool call: what the call returns, given the
    /// outcome of its request.
    pub fn finish_call(handler: ToolHandler, outcome: Outcome) -> (finished: Result<
        CallToolResult,
        McpError,
    >)
        ensures
            finished_view(finished) == call_end(outcome),
    {
        match handler {
            ToolHandler::SendMessage => Self::send_message_result(outcome),
        }
    }
}

/// A call to a name that is not registered ends as `UnknownTool`, whatever
/// its input, before any request exists.
pub proof fn lemma_unknown_tool_is_refused(
    tools: Seq<ToolView>,
    name: Seq<char>,
    arguments: Map<Seq<char>, Json>,
)
    requires
        !is_registered(tools, name),
    ensures
        call_start(tools, name, arguments) == Err::<Seq<char>, McpErrorView>(unknown_tool()),
        call_start(tools, name, arguments)->Err_0.kind == ErrorKind::UnknownTool,
{
}

/// A call to a registered tool goes ahead exactly when its input has a
/// string under `content` that is not blank, and then delivers that string.
pub proof fn lemma_call_goes_ahead_iff(
    tools: Seq<ToolView>,
    name: Seq<char>,
    arguments: Map<Seq<char>, Json>,
)
    requires
        is_registered(tools, name),
    ensures
        call_start(tools, name, arguments) is Ok <==> ({
            &&& arguments.contains_key("content"@)
            &&& arguments["content"@] matches Json::Text(content)
            &&& !is_blank(content)
        }),
        call_start(tools, name, arguments) is Ok ==> Json::Text(
            call_start(tools, name, arguments)->Ok_0,
        ) == arguments["content"@],
        call_start(tools, name, arguments) is Err ==> call_start(
            tools,
            name,
            arguments,
        )->Err_0.kind == ErrorKind::InvalidParams,
{
}

/// After any success status the call returns the acknowledgment `ok`.
pub proof fn lemma_success_is_acknowledged(status: u16)
    requires
        is_success(status),
    ensures
        call_end(Outcome::Responded(status)) == Ok::<CallToolResultView, McpErrorView>(
            acknowledgment(),
        ),
        acknowledgment().content == seq!["ok"@],
        !acknowledgment().is_error,
{
}

/// After any other status the call fails as an internal error whose detail
/// is `{"status": status}`.
pub proof fn lemma_rejection_carries_status(status: u16)
    requires
        !is_success(status),
    ensures
        call_end(Outcome::Responded(status)) is Err,
        call_end(Outcome::Responded(status))->Err_0.kind == ErrorKind::InternalError,
        call_end(Outcome::Responded(status))->Err_0.data == Some(status_detail(status)),
        ({
            &&& status_detail(status) matches Json::Object(detail)
            &&& detail.contains_key("status"@)
            &&& detail["status"@] == Json::Number(JsonNumber::Integer(status as int))
        }),
{
}

/// When the platform cannot be reached the call fails as an internal error,
/// never as invalid input, and the message ends in the transport's
/// description.
pub proof fn lemma_unreachable_is_internal(description: String)
    ensures
        call_end(Outcome::Unreachable(description)) is Err,
        call_end(Outcome::Unreachable(description))->Err_0.kind == ErrorKind::InternalError,
        call_end(Outcome::Unreachable(description))->Err_0.message
            == "Discord API request failed: "@ + description@,
{
}

/// With the switch off, `send_message` is advertised as generated. With the
/// switch on, it is advertised with the generated schema less its top-level
/// schema identifier, which leaves no schema identifier in it, and with
/// nothing else changed.
pub proof fn lemma_advertised_schemas()
    ensures
        registry_for(false) == seq![send_message_tool()],
        registry_for(true) == seq![
            (ToolView {
                input_schema: input_schema_model().remove("$schema"@),
                ..send_message_tool()
            }),
        ],
        has_no_schema_url(registry_for(true)[0].input_schema),
{
    lemma_stripped_input_schema();
    lemma_tool_without_schema_url(send_message_tool());
}

} // verus!
