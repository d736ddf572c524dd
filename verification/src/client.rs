//! The outbound client: what is sent to the chat platform for one message,
//! and what the platform's answer means.
//!
//! The client never touches the network itself. It hands out the one request
//! that delivers a message and judges the outcome that the transport reports
//! back, so that a delivery is a request, one exchange, and a verdict.

use crate::config::{DiscordConfig, DiscordConfigView};
use crate::json::{
    no_entries, object_insert, object_new, object_of, value_from_string, Json, JsonObject,
};
use crate::text::{is_blank, str_is_blank};
use vstd::prelude::*;

verus! {

/// The client's state, derived once from the configuration.
#[derive(Clone, Debug, PartialEq, Eq)]
pub struct DiscordClient {
    pub base_url: String,
    pub bot_token: String,
    pub channel_id: String,
}

/// The only method the client uses.
#[derive(Clone, Copy, PartialEq, Eq, Debug)]
pub enum HttpMethod {
    Post,
}

/// One HTTP request, ready for the transport.
#[derive(Clone, Debug, PartialEq, Eq)]
pub struct OutboundRequest {
    pub method: HttpMethod,
    pub url: String,
    /// The value of the `Authorization` header.
    pub authorization: String,
    /// The body, to be sent as JSON.
    pub body: JsonObject,
    /// How long the transport may wait for the exchange, in seconds. A
    /// request that takes longer counts as unreachable.
    pub timeout_seconds: u64,
}

/// What the transport reports after one exchange.
#[derive(Clone, Debug, PartialEq, Eq)]
pub enum Outcome {
    /// No answer was had: connection, name resolution, TLS or time-out
    /// failure; with the transport's description.
    Unreachable(String),
    /// The platform answered with this status code.
    Responded(u16),
}

/// Why a message was not delivered.
#[derive(Clone, Debug, PartialEq, Eq)]
pub enum DeliveryError {
    /// The content is empty or whitespace only; nothing was sent.
    InvalidInput,
    /// The platform could not be reached; with the transport's description.
    UpstreamUnreachable(String),
    /// The platform answered with a status outside 200..=299.
    UpstreamRejected(u16),
}

impl View for DiscordClient {
    type V = DiscordConfigView;

    open spec fn view(&self) -> DiscordConfigView {
        DiscordConfigView {
            bot_token: self.bot_token@,
            channel_id: self.channel_id@,
            base_url: self.base_url@,
        }
    }
}

/// `{base address}/channels/{channel id}/messages`.
pub open spec fn message_url(destination: DiscordConfigView) -> Seq<char> {
    destination.base_url + "/channels/"@ + destination.channel_id + "/messages"@
}

/// `Bot {credential}`.
pub open spec fn authorization_of(destination: DiscordConfigView) -> Seq<char> {
    "Bot "@ + destination.bot_token
}

/// The JSON object `{"content": content}`.
pub open spec fn message_body(content: Seq<char>) -> Map<Seq<char>, Json> {
    no_entries().insert("content"@, Json::Text(content))
}

/// The time allowed for one exchange, in seconds.
pub const REQUEST_TIMEOUT_SECONDS: u64 = 30;

/// Whether a status code reports success: any of 200..=299.
pub open spec fn is_success(status: u16) -> bool {
    200 <= status < 300
}

/// What an outcome means for the delivery.
pub open spec fn delivery_of(outcome: Outcome) -> Result<(), DeliveryError> {
    match outcome {
        Outcome::Unreachable(description) => Err(DeliveryError::UpstreamUnreachable(description)),
        Outcome::Responded(status) => if is_success(status) {
            Ok(())
        } else {
            Err(DeliveryError::UpstreamRejected(status))
        },
    }
}

/// The requests that the first half of a delivery issues: the one it hands
/// out, or none where it refuses.
pub open spec fn issued(request: Result<OutboundRequest, DeliveryError>) -> Seq<OutboundRequest> {
    match request {
        Ok(r) => seq![r],
        Err(_) => Seq::empty(),
    }
}

impl OutboundRequest {
    /// Whether this is the request that delivers `content` to `destination`.
    pub open spec fn delivers(&self, destination: DiscordConfigView, content: Seq<char>) -> bool {
        &&& self.method == HttpMethod::Post
        &&& self.url@ == message_url(destination)
        &&& self.authorization@ == authorization_of(destination)
        &&& object_of(self.body) == message_body(content)
        &&& self.timeout_seconds == REQUEST_TIMEOUT_SECONDS
    }
}

impl DiscordClient {
    /// The client for a destination.
    pub fn new(config: &DiscordConfig) -> (client: DiscordClient)
        ensures
            client@ == config@,
    {
        DiscordClient {
            base_url: config.base_url.clone(),
            bot_token: config.bot_token.clone(),
            channel_id: config.channel_id.clone(),
        }
    }

    /// The first half of a delivery: the request to send.
    ///
    /// Blank content is refused and yields no request. Any other content
    /// yields exactly one request: a POST to the channel's message address,
    /// authorised by the credential, whose body is `{"content": content}`,
    /// the content taken as it is.
    pub fn send_message_request(&self, content: &str) -> (request: Result<
        OutboundRequest,
        DeliveryError,
    >)
        ensures
            is_blank(content@) ==> request == Err::<OutboundRequest, DeliveryError>(
                DeliveryError::InvalidInput,
            ),
            is_blank(content@) ==> issued(request).len() == 0,
            !is_blank(content@) ==> request is Ok && request->Ok_0.delivers(self@, content@),
            !is_blank(content@) ==> issued(request).len() == 1 && issued(request)[0].delivers(
                self@,
                content@,
            ),
    {
        if str_is_blank(content) {
            return Err(DeliveryError::InvalidInput);
        }
        let mut url = self.base_url.clone();
        url.append("/channels/");
        url.append(self.channel_id.as_str());
        url.append("/messages");
        let mut authorization = String::from_str("Bot ");
        authorization.append(self.bot_token.as_str());
        let mut body = object_new();
        let _ = object_insert(
            &mut body,
            String::from_str("content"),
            value_from_string(String::from_str(content)),
        );
        Ok(
            OutboundRequest {
                method: HttpMethod::Post,
                url,
                authorization,
                body,
                timeout_seconds: REQUEST_TIMEOUT_SECONDS,
            },
        )
    }

    /// The second half of a delivery: the verdict on what came back. No
    /// further request follows, whatever the outcome.
    pub fn send_message_result(outcome: Outcome) -> (verdict: Result<(), DeliveryError>)
        ensures
            verdict == delivery_of(outcome),
    {
        match outcome {
            Outcome::Unreachable(description) => Err(
                DeliveryError::UpstreamUnreachable(description),
            ),
            Outcome::Responded(status) => {
                if 200 <= status && status < 300 {
                    Ok(())
                } else {
                    Err(DeliveryError::UpstreamRejected(status))
                }
            },
        }
    }
}

} // verus!
