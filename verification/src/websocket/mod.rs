//! WebSocket session logic, AIS message types, and reconnect strategies for aisstream.io.

pub mod ais_websocket_client;
pub mod model;
pub mod reconnect_strategy;
pub mod session;
