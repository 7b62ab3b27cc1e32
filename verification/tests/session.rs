use aisstream_rs::websocket::model::UnknownMessage;
use aisstream_rs::websocket::session::{
    SessionAction, SessionEvent, SessionPhase, StreamError, StreamSession,
};
use std::time::Duration;

use aisstream_rs::{AisMessage, AisMessageMetadata, AisStreamMessage, MessageType};

fn sample_message() -> AisMessage {
    AisMessage {
        message: AisStreamMessage::UnknownMessage(UnknownMessage { error: None }),
        message_type: MessageType::UnknownMessage,
        metadata: AisMessageMetadata {
            mmsi: 259000420,
            ship_name: "AUGUSTSON".to_string(),
            latitude: 66.02695f64.to_bits(),
            longitude: 12.253821666666665f64.to_bits(),
            time_utc: "2022-12-29 18:22:32.318353 +0000 UTC".to_string(),
        },
    }
}

fn subscribed_session() -> StreamSession {
    let (mut session, _) = StreamSession::start();
    assert!(matches!(session.step(SessionEvent::Connected), SessionAction::ResetStrategy));
    assert!(matches!(session.step(SessionEvent::StrategyReset), SessionAction::Subscribe));
    assert!(matches!(session.step(SessionEvent::SubscriptionSent), SessionAction::ReadFrame));
    session
}

#[test]
fn session_starts_by_connecting() {
    let (session, action) = StreamSession::start();
    assert!(matches!(action, SessionAction::Connect));
    assert_eq!(session.phase(), SessionPhase::Connecting);
}

#[test]
fn connection_is_reset_then_subscribed_before_reading() {
    let (mut session, _) = StreamSession::start();
    assert!(matches!(session.step(SessionEvent::Connected), SessionAction::ResetStrategy));
    assert_eq!(session.phase(), SessionPhase::Resetting);
    assert!(!session.expects(&SessionEvent::SubscriptionSent));
    assert!(matches!(session.step(SessionEvent::StrategyReset), SessionAction::Subscribe));
    assert_eq!(session.phase(), SessionPhase::Subscribing);
    assert!(!session.expects(&SessionEvent::TextFrame("{}".to_string())));
    assert!(matches!(session.step(SessionEvent::SubscriptionSent), SessionAction::ReadFrame));
    assert_eq!(session.phase(), SessionPhase::Reading);
}

#[test]
fn failed_subscription_backs_off_before_reconnecting() {
    let (mut session, _) = StreamSession::start();
    session.step(SessionEvent::Connected);
    session.step(SessionEvent::StrategyReset);
    assert!(matches!(session.step(SessionEvent::SubscriptionFailed), SessionAction::NextDelay));
    assert_eq!(session.phase(), SessionPhase::ChoosingDelay);
    match session.step(SessionEvent::DelayChosen(Duration::from_millis(1500))) {
        SessionAction::Sleep(delay) => assert_eq!(delay, Duration::from_millis(1500)),
        other => panic!("unexpected action {other:?}"),
    }
    assert!(matches!(session.step(SessionEvent::Slept), SessionAction::Connect));
}

#[test]
fn failed_connection_waits_the_strategy_delay_then_reconnects() {
    let (mut session, _) = StreamSession::start();
    assert!(matches!(session.step(SessionEvent::ConnectFailed), SessionAction::NextDelay));
    assert_eq!(session.phase(), SessionPhase::ChoosingDelay);
    match session.step(SessionEvent::DelayChosen(Duration::from_secs(4))) {
        SessionAction::Sleep(delay) => assert_eq!(delay, Duration::from_secs(4)),
        other => panic!("unexpected action {other:?}"),
    }
    assert_eq!(session.phase(), SessionPhase::Sleeping);
    assert!(matches!(session.step(SessionEvent::Slept), SessionAction::Connect));
}

#[test]
fn text_frames_are_decoded_as_they_are() {
    let mut session = subscribed_session();
    match session.step(SessionEvent::TextFrame("{\"a\":1}".to_string())) {
        SessionAction::Decode(text) => assert_eq!(text, "{\"a\":1}"),
        other => panic!("unexpected action {other:?}"),
    }
    assert_eq!(session.phase(), SessionPhase::Decoding);
}

#[test]
fn utf8_binary_frames_are_decoded_as_text() {
    let mut session = subscribed_session();
    match session.step(SessionEvent::BinaryFrame("Gebze – Kocaeli".as_bytes().to_vec())) {
        SessionAction::Decode(text) => assert_eq!(text, "Gebze – Kocaeli"),
        other => panic!("unexpected action {other:?}"),
    }
}

#[test]
fn invalid_binary_frames_are_reported() {
    let mut session = subscribed_session();
    match session.step(SessionEvent::BinaryFrame(vec![0x7b, 0xff, 0x7d])) {
        SessionAction::Report(StreamError::InvalidUtf8(err)) => {
            assert_eq!(err, std::str::from_utf8(&[0x7b, 0xff, 0x7d]).unwrap_err());
            assert_eq!(err.valid_up_to(), 1);
            assert_eq!(
                format!("invalid utf-8 in binary frame: {err}"),
                "invalid utf-8 in binary frame: invalid utf-8 sequence of 1 bytes from index 1"
            );
        }
        other => panic!("unexpected action {other:?}"),
    }
    assert!(matches!(session.step(SessionEvent::Reported), SessionAction::ReadFrame));
}

#[test]
fn control_frames_are_skipped() {
    let mut session = subscribed_session();
    assert!(matches!(session.step(SessionEvent::ControlFrame), SessionAction::ReadFrame));
    assert_eq!(session.phase(), SessionPhase::Reading);
}

#[test]
fn closing_or_failing_connections_back_off() {
    for event in [SessionEvent::CloseFrame, SessionEvent::ReadFailed, SessionEvent::StreamEnded] {
        let mut session = subscribed_session();
        assert!(matches!(session.step(event), SessionAction::NextDelay));
        assert_eq!(session.phase(), SessionPhase::ChoosingDelay);
    }
}

#[test]
fn decoded_messages_are_delivered() {
    let mut session = subscribed_session();
    session.step(SessionEvent::TextFrame("...".to_string()));
    match session.step(SessionEvent::Decoded(sample_message())) {
        SessionAction::Deliver(message) => assert_eq!(message, sample_message()),
        other => panic!("unexpected action {other:?}"),
    }
    assert!(matches!(session.step(SessionEvent::Delivered), SessionAction::ReadFrame));
}

#[test]
fn decode_failures_are_reported() {
    let mut session = subscribed_session();
    session.step(SessionEvent::TextFrame("{ not json }".to_string()));
    let error = serde_json::from_str::<serde_json::Value>("{ not json }").unwrap_err();
    match session.step(SessionEvent::DecodeFailed(error)) {
        SessionAction::Report(StreamError::Decode(err)) => assert!(err.is_syntax()),
        other => panic!("unexpected action {other:?}"),
    }
}

#[test]
fn dropped_receiver_is_reported_and_reading_goes_on() {
    let mut session = subscribed_session();
    session.step(SessionEvent::TextFrame("...".to_string()));
    session.step(SessionEvent::Decoded(sample_message()));
    assert!(matches!(
        session.step(SessionEvent::DeliveryFailed),
        SessionAction::Report(StreamError::ReceiverDropped)
    ));
    assert!(matches!(session.step(SessionEvent::Reported), SessionAction::ReadFrame));
    assert_eq!(session.phase(), SessionPhase::Reading);
}

#[test]
fn session_only_expects_outcomes_of_its_action() {
    let (session, _) = StreamSession::start();
    assert!(session.expects(&SessionEvent::Connected));
    assert!(session.expects(&SessionEvent::ConnectFailed));
    assert!(!session.expects(&SessionEvent::Slept));
    assert!(!session.expects(&SessionEvent::ControlFrame));
}
