//! A client library for aisstream.io: real-time AIS vessel data over WebSockets.
//!
//! The verified part of the crate holds the connection settings, the AIS message model, the
//! reconnect backoff policy, and the decision logic of the streaming session. The I/O that drives
//! a session (opening sockets, serialising JSON, sleeping) is done by the surrounding application
//! code, which feeds the session its events and performs the actions it asks for.

pub mod config;
pub mod websocket;

pub use config::{AisStreamConfig, AisStreamCredentials, MessageType};
pub use websocket::ais_websocket_client::AisWebsocketClient;
pub use websocket::model::{AisMessage, AisMessageMetadata, AisStreamMessage, SubscriptionMessage};
pub use websocket::reconnect_strategy::{AISStreamReconnectStrategy, ExponentialBackoff};
