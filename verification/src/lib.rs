//! A tool service that relays text messages to one channel of a chat
//! platform.
//!
//! The service offers a single tool, `send_message`. A call to it is looked
//! up, validated and turned into one HTTP request; the answer to that request
//! is turned into the call's result. This crate decides all of that and does
//! none of the input and output: the caller reads the configuration file,
//! talks the protocol and performs the request.
//!
//! * [`config`] reads the configuration from a TOML document.
//! * [`client`] builds the request for a message and judges the answer.
//! * [`schema`] removes the schema identifier from an advertised schema.
//! * [`tool`] holds the tools, their registry and the input of `send_message`.
//! * [`protocol`] holds the shapes of results and errors.
//! * [`server`] is the service itself.
//! * [`json`] and [`toml_doc`] are the doors to the `serde_json` and `toml`
//!   crates: the models of their documents, and what is assumed of them.
//! * [`text`] says what blank text is.

pub mod client;
pub mod config;
pub mod json;
pub mod protocol;
pub mod schema;
pub mod server;
pub mod text;
pub mod tool;
pub mod toml_doc;
