# aisstream-rs

A client library for [aisstream.io](https://aisstream.io) real-time AIS vessel data, verified
with Verus.

- `src/config` — connection settings (`AisStreamConfig`, credentials, message-type filters).
- `src/websocket/model.rs` — the API message model; real numbers are held as their IEEE-754
  bit patterns, exactly as they arrive.
- `src/websocket/reconnect_strategy.rs` — the reconnect strategy trait and `ExponentialBackoff`,
  with its delay formula (`min(base · 2^attempt, max)`) and laws.
- `src/websocket/ais_websocket_client.rs` — the client, the stream URL, and the subscription
  payload built from a config.
- `src/websocket/session.rs` — the decisions of a running stream as a state machine, with laws
  over event histories: the strategy is reset once per connection before the subscription is
  sent; no frame is handled before the subscription was sent; every lost connection waits for
  the strategy's delay before reconnecting; the consumer gets one item per data frame.
- `app/` — the I/O layer: serde copies of the types, loading a config file, and the async task
  that performs each session action over a WebSocket.
