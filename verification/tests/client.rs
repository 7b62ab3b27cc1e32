use aisstream_rs::websocket::ais_websocket_client::{stream_url, subscription_message, AIS_STREAM_PATH};
use aisstream_rs::{
    AisStreamConfig, AisStreamCredentials, AisWebsocketClient, ExponentialBackoff, MessageType,
};
use aisstream_rs::AISStreamReconnectStrategy;
use std::time::Duration;

fn corner(lat: f64, lon: f64) -> [u64; 2] {
    [lat.to_bits(), lon.to_bits()]
}

fn sample_config(filters: bool) -> AisStreamConfig {
    AisStreamConfig::new(
        "wss://stream.aisstream.io".to_string(),
        vec![
            vec![corner(25.835302, -80.207729), corner(25.602700, -79.879297)],
            vec![corner(33.772292, -118.356139), corner(33.673490, -118.095731)],
        ],
        AisStreamCredentials { api_key: "test-api-key".to_string(), api_secret: None },
        if filters { Some(vec!["368207620".to_string(), "367719770".to_string()]) } else { None },
        if filters { Some(vec![MessageType::PositionReport, MessageType::ShipStaticData]) } else { None },
    )
}

#[test]
fn config_new_keeps_its_arguments() {
    let config = sample_config(true);
    assert_eq!(config.base_url, "wss://stream.aisstream.io");
    assert_eq!(config.bounding_boxes.len(), 2);
    assert_eq!(f64::from_bits(config.bounding_boxes[1][0][1]), -118.356139);
    assert_eq!(config.credentials.api_key, "test-api-key");
    assert!(config.credentials.api_secret.is_none());
    assert_eq!(
        config.filter_message_type,
        Some(vec![MessageType::PositionReport, MessageType::ShipStaticData])
    );
}

#[test]
fn stream_url_sets_the_stream_path() {
    assert_eq!(AIS_STREAM_PATH, "/v0/stream");
    assert_eq!(stream_url("wss://stream.aisstream.io").unwrap(), "wss://stream.aisstream.io/v0/stream");
    assert_eq!(
        stream_url("wss://stream.aisstream.io/v0/stream").unwrap(),
        "wss://stream.aisstream.io/v0/stream"
    );
    assert_eq!(stream_url("wss://example.org/other?x=1").unwrap(), "wss://example.org/v0/stream?x=1");
}

#[test]
fn stream_url_rejects_relative_urls() {
    assert_eq!(stream_url("stream.aisstream.io").unwrap_err(), url::ParseError::RelativeUrlWithoutBase);
    assert!(stream_url("").is_err());
}

#[test]
fn subscription_copies_key_boxes_and_filters() {
    let config = sample_config(true);
    let msg = subscription_message(&config);
    assert_eq!(msg.api_key, "test-api-key");
    assert_eq!(msg.bounding_boxes, config.bounding_boxes);
    assert_eq!(msg.filters_ship_mmsi, vec!["368207620", "367719770"]);
    assert_eq!(msg.filter_message_types, vec![MessageType::PositionReport, MessageType::ShipStaticData]);
}

#[test]
fn subscription_without_filters_sends_empty_lists() {
    let msg = subscription_message(&sample_config(false));
    assert!(msg.filters_ship_mmsi.is_empty());
    assert!(msg.filter_message_types.is_empty());
    assert_eq!(msg.bounding_boxes.len(), 2);
}

#[test]
fn new_client_uses_default_backoff() {
    let client = AisWebsocketClient::new(sample_config(false));
    assert_eq!(client.config(), &sample_config(false));
    let mut strategy = client.reconnect_strategy().clone();
    assert_eq!(strategy.next_delay(), Duration::from_secs(1));
    assert_eq!(client.stream_url().unwrap(), "wss://stream.aisstream.io/v0/stream");
    assert_eq!(client.subscription().api_key, "test-api-key");
}

#[test]
fn client_with_strategy_keeps_it() {
    let strategy = ExponentialBackoff::new(Duration::from_secs(2), Duration::from_secs(60));
    let client = AisWebsocketClient::with_strategy(sample_config(true), strategy);
    let mut copy = client.reconnect_strategy().clone();
    assert_eq!(copy.next_delay(), Duration::from_secs(2));
    assert_eq!(copy.next_delay(), Duration::from_secs(4));
    assert_eq!(client.subscription().filters_ship_mmsi.len(), 2);
}
