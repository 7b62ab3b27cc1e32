//! The decisions of a streaming session.
//!
//! A stream runs forever: it connects, resets the reconnect strategy and sends the subscription,
//! then reads frames and turns each text (or UTF-8 binary) frame into an [`AisMessage`] for the
//! consumer, or into an error when it does not decode. When the connection cannot be opened,
//! the subscription cannot be sent, or the connection closes or fails, it asks the reconnect
//! strategy for its next delay, waits exactly that long, and connects again.
//!
//! [`StreamSession`] holds these decisions as a state machine: the caller performs each
//! [`SessionAction`] and reports its outcome as a [`SessionEvent`]; the session answers with the
//! next action.

use core::str::Utf8Error;
use core::time::Duration;
use vstd::prelude::*;
use vstd::string::StringSliceAdditionalSpecFns;
use vstd::utf8::{decode_utf8, decode_utf8_encode_utf8, encode_utf8, encode_utf8_decode_utf8, valid_utf8};

use crate::websocket::model::AisMessage;

verus! {

/// `core::str::Utf8Error`, the error `core::str::from_utf8` reports.
#[verifier::external_type_specification]
#[verifier::external_body]
pub struct ExUtf8Error(Utf8Error);

/// `serde_json::Error`, the error a failed JSON decoding reports.
#[verifier::external_type_specification]
#[verifier::external_body]
pub struct ExJsonError(serde_json::Error);

/// The error `core::str::from_utf8` reports for `bytes` when they are not valid UTF-8.
pub uninterp spec fn utf8_error_of(bytes: Seq<u8>) -> Utf8Error;

/// Trusted: `core::str::from_utf8` succeeds exactly on valid UTF-8 (as vstd's `valid_utf8`
/// defines it), and the string it returns has the given bytes. Its error is a function of the
/// bytes alone, named `utf8_error_of`; what the error holds (where the valid prefix ends, how
/// long the invalid sequence is) is not stated.
pub assume_specification[ core::str::from_utf8 ](v: &[u8]) -> (r: Result<&str, Utf8Error>)
    ensures
        r is Ok <==> valid_utf8(v@),
        r matches Ok(s) ==> s.spec_bytes() == v@,
        r matches Err(e) ==> e == utf8_error_of(v@),
;

/// What stream consumers receive in place of a message.
#[derive(Debug)]
pub enum StreamError {
    /// A text (or UTF-8 binary) frame did not decode as an [`AisMessage`].
    Decode(serde_json::Error),
    /// A binary frame was not valid UTF-8.
    InvalidUtf8(Utf8Error),
    /// The consumer of the stream went away, so a decoded message could not be handed over.
    ReceiverDropped,
}

/// Where a session stands: which outcome it waits for.
#[derive(Debug, Clone, Copy, PartialEq, Eq, Structural)]
pub enum SessionPhase {
    /// Waiting for a connection attempt to finish.
    Connecting,
    /// Connected; waiting for the reconnect strategy to be reset.
    Resetting,
    /// Connected and reset; waiting for the subscription to be sent.
    Subscribing,
    /// Subscribed; waiting for the next frame.
    Reading,
    /// Waiting for a payload to be decoded.
    Decoding,
    /// Waiting for a decoded message to be handed to the consumer.
    Delivering,
    /// Waiting for an error to be handed to the consumer.
    Reporting,
    /// Disconnected; waiting for the reconnect strategy's next delay.
    ChoosingDelay,
    /// Disconnected; waiting out the reconnect delay.
    Sleeping,
}

/// The outcome of the last action, as the caller observed it.
#[derive(Debug)]
pub enum SessionEvent {
    /// The WebSocket connection opened.
    Connected,
    /// The WebSocket connection could not be opened.
    ConnectFailed,
    /// The reconnect strategy was reset.
    StrategyReset,
    /// The subscription payload was sent.
    SubscriptionSent,
    /// Sending the subscription payload failed.
    SubscriptionFailed,
    /// A text frame arrived.
    TextFrame(String),
    /// A binary frame arrived.
    BinaryFrame(Vec<u8>),
    /// A ping, pong or raw frame arrived.
    ControlFrame,
    /// The server closed the connection.
    CloseFrame,
    /// Reading from the connection failed.
    ReadFailed,
    /// The connection has no more frames.
    StreamEnded,
    /// The payload decoded to this message.
    Decoded(AisMessage),
    /// The payload did not decode.
    DecodeFailed(serde_json::Error),
    /// The message reached the consumer.
    Delivered,
    /// The consumer is gone; the message could not be handed over.
    DeliveryFailed,
    /// The error was handed to the consumer (or dropped, if the consumer is gone).
    Reported,
    /// The reconnect strategy's `next_delay` returned this delay.
    DelayChosen(Duration),
    /// The delay has passed.
    Slept,
}

/// What the caller should do next.
#[derive(Debug)]
pub enum SessionAction {
    /// Open the WebSocket connection to the stream URL.
    Connect,
    /// Call the reconnect strategy's `reset`.
    ResetStrategy,
    /// Send the subscription payload.
    Subscribe,
    /// Wait for the next frame.
    ReadFrame,
    /// Decode this payload as an [`AisMessage`].
    Decode(String),
    /// Hand this message to the consumer.
    Deliver(AisMessage),
    /// Hand this error to the consumer; its failure to arrive is ignored.
    Report(StreamError),
    /// Call the reconnect strategy's `next_delay`.
    NextDelay,
    /// Wait this long.
    Sleep(Duration),
}

/// The phases in which the session holds a subscribed connection.
pub open spec fn is_subscribed(phase: SessionPhase) -> bool {
    match phase {
        SessionPhase::Reading | SessionPhase::Decoding | SessionPhase::Delivering
        | SessionPhase::Reporting => true,
        _ => false,
    }
}

/// The outcomes that end a connection, or the attempt to have one.
pub open spec fn is_disconnection(event: SessionEvent) -> bool {
    match event {
        SessionEvent::ConnectFailed | SessionEvent::SubscriptionFailed | SessionEvent::CloseFrame
        | SessionEvent::ReadFailed | SessionEvent::StreamEnded => true,
        _ => false,
    }
}

/// Whether `event` is an outcome the session waits for in `phase`.
pub open spec fn expects(phase: SessionPhase, event: SessionEvent) -> bool {
    match event {
        SessionEvent::Connected | SessionEvent::ConnectFailed => phase == SessionPhase::Connecting,
        SessionEvent::StrategyReset => phase == SessionPhase::Resetting,
        SessionEvent::SubscriptionSent | SessionEvent::SubscriptionFailed => phase
            == SessionPhase::Subscribing,
        SessionEvent::TextFrame(_) | SessionEvent::BinaryFrame(_) | SessionEvent::ControlFrame
        | SessionEvent::CloseFrame | SessionEvent::ReadFailed | SessionEvent::StreamEnded => phase
            == SessionPhase::Reading,
        SessionEvent::Decoded(_) | SessionEvent::DecodeFailed(_) => phase == SessionPhase::Decoding,
        SessionEvent::Delivered | SessionEvent::DeliveryFailed => phase == SessionPhase::Delivering,
        SessionEvent::Reported => phase == SessionPhase::Reporting,
        SessionEvent::DelayChosen(_) => phase == SessionPhase::ChoosingDelay,
        SessionEvent::Slept => phase == SessionPhase::Sleeping,
    }
}

/// The phase that waits for the outcome of `action`.
pub open spec fn awaiting(action: SessionAction) -> SessionPhase {
    match action {
        SessionAction::Connect => SessionPhase::Connecting,
        SessionAction::ResetStrategy => SessionPhase::Resetting,
        SessionAction::Subscribe => SessionPhase::Subscribing,
        SessionAction::ReadFrame => SessionPhase::Reading,
        SessionAction::Decode(_) => SessionPhase::Decoding,
        SessionAction::Deliver(_) => SessionPhase::Delivering,
        SessionAction::Report(_) => SessionPhase::Reporting,
        SessionAction::NextDelay => SessionPhase::ChoosingDelay,
        SessionAction::Sleep(_) => SessionPhase::Sleeping,
    }
}

/// The action that answers `event`.
///
/// - a new connection first resets the reconnect strategy, then sends the subscription;
/// - a failed connection attempt, a failed subscription, a close frame, a read error or the end
///   of the connection asks the strategy for its next delay; the session waits exactly that
///   delay, then connects again;
/// - a text frame is decoded as it is; a binary frame is decoded as the text it encodes if it is
///   valid UTF-8, else reported with the error `from_utf8` gives for its bytes;
/// - ping, pong and raw frames are skipped;
/// - a decoded message is delivered, a decoding failure reported; a message the consumer could
///   not take is reported as a dropped receiver;
/// - after a subscription, delivery or report, the next frame is read.
pub open spec fn answers(event: SessionEvent, action: SessionAction) -> bool {
    match event {
        SessionEvent::Connected => action is ResetStrategy,
        SessionEvent::StrategyReset => action is Subscribe,
        SessionEvent::Slept => action is Connect,
        SessionEvent::ConnectFailed | SessionEvent::SubscriptionFailed | SessionEvent::CloseFrame
        | SessionEvent::ReadFailed | SessionEvent::StreamEnded => action is NextDelay,
        SessionEvent::DelayChosen(delay) => action == SessionAction::Sleep(delay),
        SessionEvent::SubscriptionSent | SessionEvent::ControlFrame | SessionEvent::Delivered
        | SessionEvent::Reported => action is ReadFrame,
        SessionEvent::TextFrame(text) => action == SessionAction::Decode(text),
        SessionEvent::BinaryFrame(bytes) => if valid_utf8(bytes@) {
            action matches SessionAction::Decode(text) && text@ == decode_utf8(bytes@)
        } else {
            action == SessionAction::Report(StreamError::InvalidUtf8(utf8_error_of(bytes@)))
        },
        SessionEvent::Decoded(message) => action == SessionAction::Deliver(message),
        SessionEvent::DecodeFailed(error) => action == SessionAction::Report(
            StreamError::Decode(error),
        ),
        SessionEvent::DeliveryFailed => action == SessionAction::Report(
            StreamError::ReceiverDropped,
        ),
    }
}

/// The phase a session moves to on `event`.
pub open spec fn next_phase(event: SessionEvent) -> SessionPhase {
    match event {
        SessionEvent::Connected => SessionPhase::Resetting,
        SessionEvent::StrategyReset => SessionPhase::Subscribing,
        SessionEvent::Slept => SessionPhase::Connecting,
        SessionEvent::ConnectFailed | SessionEvent::SubscriptionFailed | SessionEvent::CloseFrame
        | SessionEvent::ReadFailed | SessionEvent::StreamEnded => SessionPhase::ChoosingDelay,
        SessionEvent::DelayChosen(_) => SessionPhase::Sleeping,
        SessionEvent::SubscriptionSent | SessionEvent::ControlFrame | SessionEvent::Delivered
        | SessionEvent::Reported => SessionPhase::Reading,
        SessionEvent::TextFrame(_) => SessionPhase::Decoding,
        SessionEvent::Decoded(_) => SessionPhase::Delivering,
        SessionEvent::BinaryFrame(bytes) => if valid_utf8(bytes@) {
            SessionPhase::Decoding
        } else {
            SessionPhase::Reporting
        },
        SessionEvent::DecodeFailed(_) | SessionEvent::DeliveryFailed => SessionPhase::Reporting,
    }
}

/// The phase of a new session after it took the events of `history`, in order.
pub open spec fn phase_after(history: Seq<SessionEvent>) -> SessionPhase {
    if history.len() == 0 {
        SessionPhase::Connecting
    } else {
        next_phase(history.last())
    }
}

/// Whether a new session can take the events of `history` in order, each one an outcome it
/// waits for at that point.
pub open spec fn is_history(history: Seq<SessionEvent>) -> bool {
    forall|i: int| 0 <= i < history.len() ==> expects(#[trigger] phase_after(history.take(i)), history[i])
}

/// In a history, the first event is a connection outcome, and each later event is an outcome
/// of the action that answered the one before.
proof fn lemma_history_steps(history: Seq<SessionEvent>, i: int)
    requires
        is_history(history),
        0 <= i < history.len(),
    ensures
        i == 0 ==> expects(SessionPhase::Connecting, history[i]),
        i > 0 ==> expects(next_phase(history[i - 1]), history[i]),
{
    assert(expects(phase_after(history.take(i)), history[i]));
    if i > 0 {
        assert(history.take(i).last() == history[i - 1]);
    }
}

/// A prefix of a history is a history.
proof fn lemma_history_prefix(history: Seq<SessionEvent>, n: int)
    requires
        is_history(history),
        0 <= n <= history.len(),
    ensures
        is_history(history.take(n)),
{
    let prefix = history.take(n);
    assert forall|i: int| 0 <= i < prefix.len() implies expects(
        #[trigger] phase_after(prefix.take(i)),
        prefix[i],
    ) by {
        assert(prefix.take(i) =~= history.take(i));
        assert(expects(phase_after(history.take(i)), history[i]));
    }
}

/// Whether the last connection in `history` was subscribed to: a `Connected` event followed by
/// the strategy reset and a successful subscription, with no later `Connected`.
pub open spec fn subscribed_since_last_connect(history: Seq<SessionEvent>) -> bool {
    exists|i: int|
        #![trigger history[i]]
        2 <= i < history.len() && history[i - 2] is Connected && history[i - 1] is StrategyReset
            && history[i] is SubscriptionSent
            && forall|j: int| i < j < history.len() ==> !(#[trigger] history[j] is Connected)
}

/// No frame is read, decoded, delivered or reported on a connection before the subscription was
/// sent on it: whenever a session holds a subscribed connection, the last connection it opened
/// was followed by the strategy reset and a successful subscription.
pub proof fn lemma_frames_only_after_subscription(history: Seq<SessionEvent>)
    requires
        is_history(history),
        is_subscribed(phase_after(history)),
    ensures
        subscribed_since_last_connect(history),
    decreases history.len(),
{
    let n = history.len() as int;
    let last = history[n - 1];
    let prefix = history.take(n - 1);
    lemma_history_steps(history, n - 1);
    if last is SubscriptionSent {
        lemma_history_steps(history, n - 2);
        assert(history[n - 2] is StrategyReset);
        lemma_history_steps(history, n - 3);
        assert(history[n - 3] is Connected);
    } else {
        assert(is_subscribed(phase_after(prefix)));
        lemma_history_prefix(history, n - 1);
        lemma_frames_only_after_subscription(prefix);
        let i = choose|i: int|
            #![trigger prefix[i]]
            2 <= i < prefix.len() && prefix[i - 2] is Connected && prefix[i - 1] is StrategyReset
                && prefix[i] is SubscriptionSent
                && forall|j: int| i < j < prefix.len() ==> !(#[trigger] prefix[j] is Connected);
        assert(history[i] == prefix[i]);
        assert(history[i - 1] == prefix[i - 1]);
        assert(history[i - 2] == prefix[i - 2]);
        assert forall|j: int| i < j < history.len() implies !(#[trigger] history[j] is Connected) by {
            if j < n - 1 {
                assert(history[j] == prefix[j]);
            }
        }
    }
}

/// The reconnect strategy is reset exactly once per connection, right after it opened and
/// right before the subscription is sent; so no `next_delay` comes between a connection and its
/// reset, and a reset happens only on a new connection.
pub proof fn lemma_reset_on_every_connection(history: Seq<SessionEvent>, i: int)
    requires
        is_history(history),
        0 <= i < history.len(),
    ensures
        history[i] is Connected && i + 1 < history.len() ==> history[i + 1] is StrategyReset,
        history[i] is StrategyReset ==> i >= 1 && history[i - 1] is Connected,
        history[i] is StrategyReset && i + 1 < history.len() ==> (history[i + 1] is SubscriptionSent
            || history[i + 1] is SubscriptionFailed),
        history[i] is SubscriptionSent || history[i] is SubscriptionFailed ==> i >= 2
            && history[i - 1] is StrategyReset && history[i - 2] is Connected,
{
    lemma_history_steps(history, i);
    if i + 1 < history.len() {
        lemma_history_steps(history, i + 1);
    }
    if i >= 1 {
        lemma_history_steps(history, i - 1);
    }
}

/// Every lost connection (or failed attempt) is followed by one `next_delay` call and a wait,
/// and every connection attempt but the first comes right after such a wait: the session asks
/// the strategy once, sleeps exactly the delay it returned (see `answers`), and only then
/// connects again.
pub proof fn lemma_reconnect_waits_for_strategy(history: Seq<SessionEvent>, i: int)
    requires
        is_history(history),
        0 <= i < history.len(),
    ensures
        is_disconnection(history[i]) && i + 1 < history.len() ==> history[i + 1] is DelayChosen,
        history[i] is DelayChosen && i + 1 < history.len() ==> history[i + 1] is Slept,
        history[i] is DelayChosen ==> i >= 1 && is_disconnection(history[i - 1]),
        (history[i] is Connected || history[i] is ConnectFailed) && i > 0 ==> i >= 2
            && history[i - 1] is Slept && history[i - 2] is DelayChosen,
{
    lemma_history_steps(history, i);
    if i + 1 < history.len() {
        lemma_history_steps(history, i + 1);
    }
    if i >= 1 {
        lemma_history_steps(history, i - 1);
    }
}

/// The frames that carry data: text frames and binary frames.
pub open spec fn is_data_frame(event: SessionEvent) -> bool {
    event is TextFrame || event is BinaryFrame
}

/// The outcomes that hand the consumer one item: a decoded message, a decoding failure, or a
/// binary frame that is not UTF-8.
pub open spec fn yields_item(event: SessionEvent) -> bool {
    match event {
        SessionEvent::Decoded(_) | SessionEvent::DecodeFailed(_) => true,
        SessionEvent::BinaryFrame(bytes) => !valid_utf8(bytes@),
        _ => false,
    }
}

/// How many data frames `history` holds.
pub open spec fn data_frame_count(history: Seq<SessionEvent>) -> nat
    decreases history.len(),
{
    if history.len() == 0 {
        0
    } else {
        data_frame_count(history.drop_last()) + if is_data_frame(history.last()) { 1nat } else { 0nat }
    }
}

/// How many items the consumer is handed over `history`.
pub open spec fn item_count(history: Seq<SessionEvent>) -> nat
    decreases history.len(),
{
    if history.len() == 0 {
        0
    } else {
        item_count(history.drop_last()) + if yields_item(history.last()) { 1nat } else { 0nat }
    }
}

/// One stream item per data frame, in order, and none for control frames, closes or errors:
/// while the consumer takes every message, the number of items handed over equals the number of
/// data frames read, except while the last frame is still being decoded. Since this holds for
/// every prefix of a history, the item of each frame comes after that frame and before the
/// next one.
pub proof fn lemma_one_item_per_data_frame(history: Seq<SessionEvent>)
    requires
        is_history(history),
        forall|i: int| 0 <= i < history.len() ==> !(#[trigger] history[i] is DeliveryFailed),
    ensures
        phase_after(history) == SessionPhase::Decoding ==> item_count(history) + 1 == data_frame_count(history),
        phase_after(history) != SessionPhase::Decoding ==> item_count(history) == data_frame_count(history),
    decreases history.len(),
{
    if history.len() > 0 {
        let n = history.len() as int;
        let prefix = history.drop_last();
        assert(prefix =~= history.take(n - 1));
        lemma_history_prefix(history, n - 1);
        assert forall|i: int| 0 <= i < prefix.len() implies !(#[trigger] prefix[i] is DeliveryFailed) by {
            assert(prefix[i] == history[i]);
        }
        lemma_one_item_per_data_frame(prefix);
        lemma_history_steps(history, n - 1);
        if n >= 2 {
            assert(prefix.last() == history[n - 2]);
        }
        assert(!(history[n - 1] is DeliveryFailed));
    }
}

/// A session never ends: in every phase it waits for some outcome, and each outcome leads to a
/// next action, so the stream stays open across disconnects and reconnects.
pub proof fn lemma_session_never_ends(phase: SessionPhase)
    ensures
        exists|event: SessionEvent| #[trigger] expects(phase, event),
{
    match phase {
        SessionPhase::Connecting => assert(expects(phase, SessionEvent::ConnectFailed)),
        SessionPhase::Resetting => assert(expects(phase, SessionEvent::StrategyReset)),
        SessionPhase::Subscribing => assert(expects(phase, SessionEvent::SubscriptionFailed)),
        SessionPhase::Reading => assert(expects(phase, SessionEvent::StreamEnded)),
        SessionPhase::Decoding => assert(expects(phase, SessionEvent::Decoded(arbitrary()))),
        SessionPhase::Delivering => assert(expects(phase, SessionEvent::DeliveryFailed)),
        SessionPhase::Reporting => assert(expects(phase, SessionEvent::Reported)),
        SessionPhase::ChoosingDelay => assert(expects(phase, SessionEvent::DelayChosen(arbitrary()))),
        SessionPhase::Sleeping => assert(expects(phase, SessionEvent::Slept)),
    }
}

/// Every decoded message reaches the consumer exactly as it was decoded, whatever its type.
pub proof fn law_decoded_message_delivered_unchanged(message: AisMessage, action: SessionAction)
    requires
        answers(SessionEvent::Decoded(message), action),
    ensures
        action matches SessionAction::Deliver(delivered) && delivered == message,
{
}

/// Every text frame is decoded whole: the payload handed to decoding has exactly the frame's
/// characters, whatever its length.
pub proof fn law_text_frame_decoded_whole(text: String, action: SessionAction)
    requires
        answers(SessionEvent::TextFrame(text), action),
    ensures
        action matches SessionAction::Decode(payload) && payload@ == text@,
{
}

/// A binary frame that is valid UTF-8 is decoded as the text whose UTF-8 encoding is exactly
/// the frame; any other binary frame is reported with the error `from_utf8` gives for it.
pub proof fn law_binary_frame_decoded_as_its_text(bytes: Vec<u8>, action: SessionAction)
    requires
        answers(SessionEvent::BinaryFrame(bytes), action),
    ensures
        valid_utf8(bytes@) ==> (action matches SessionAction::Decode(payload) && encode_utf8(
            payload@,
        ) == bytes@),
        !valid_utf8(bytes@) ==> (action matches SessionAction::Report(StreamError::InvalidUtf8(
            error,
        )) && error == utf8_error_of(bytes@)),
{
    if valid_utf8(bytes@) {
        decode_utf8_encode_utf8(bytes@);
    }
}

/// Failures reach the consumer as they happened: a decoding failure is reported with its own
/// error, and a message the consumer could not take is reported as a dropped receiver.
pub proof fn law_failures_reported(event: SessionEvent, action: SessionAction)
    requires
        answers(event, action),
    ensures
        event matches SessionEvent::DecodeFailed(error) ==> (action matches SessionAction::Report(
            StreamError::Decode(reported),
        ) && reported == error),
        event is DeliveryFailed ==> (action matches SessionAction::Report(
            StreamError::ReceiverDropped,
        )),
{
}

/// The connection protocol: a new connection first resets the strategy, then subscribes; a sent
/// subscription, a skipped control frame, a delivery or a report lead to reading the next frame;
/// every kind of disconnection asks the strategy for a delay, the session sleeps exactly that
/// delay, and then connects again.
pub proof fn law_connection_protocol(event: SessionEvent, action: SessionAction)
    requires
        answers(event, action),
    ensures
        event is Connected ==> action is ResetStrategy,
        event is StrategyReset ==> action is Subscribe,
        event is SubscriptionSent || event is ControlFrame || event is Delivered
            || event is Reported ==> action is ReadFrame,
        event is ConnectFailed || event is SubscriptionFailed || event is CloseFrame
            || event is ReadFailed || event is StreamEnded ==> action is NextDelay,
        event matches SessionEvent::DelayChosen(delay) ==> (action matches SessionAction::Sleep(
            slept,
        ) && slept == delay),
        event is Slept ==> action is Connect,
{
}

/// While reading, every outcome of reading a frame is expected: text, binary, ping/pong/raw,
/// close, read error and end of stream. None of them is expected in any other phase.
pub proof fn law_reading_expects_every_frame_outcome(phase: SessionPhase, event: SessionEvent)
    requires
        event is TextFrame || event is BinaryFrame || event is ControlFrame || event is CloseFrame
            || event is ReadFailed || event is StreamEnded,
    ensures
        expects(SessionPhase::Reading, event),
        phase != SessionPhase::Reading ==> !expects(phase, event),
{
}

/// Each phase expects the outcomes of the action that led to it: a connection attempt's
/// success or failure, the reset, the subscription's success or failure, the decoding's result,
/// the delivery's result, the report, the delay chosen, and the end of the sleep.
pub proof fn law_each_action_expects_its_outcomes(event: SessionEvent)
    ensures
        event is Connected || event is ConnectFailed ==> expects(SessionPhase::Connecting, event),
        event is StrategyReset ==> expects(SessionPhase::Resetting, event),
        event is SubscriptionSent || event is SubscriptionFailed ==> expects(
            SessionPhase::Subscribing,
            event,
        ),
        event is Decoded || event is DecodeFailed ==> expects(SessionPhase::Decoding, event),
        event is Delivered || event is DeliveryFailed ==> expects(SessionPhase::Delivering, event),
        event is Reported ==> expects(SessionPhase::Reporting, event),
        event is DelayChosen ==> expects(SessionPhase::ChoosingDelay, event),
        event is Slept ==> expects(SessionPhase::Sleeping, event),
        awaiting(SessionAction::Connect) == SessionPhase::Connecting,
        awaiting(SessionAction::ResetStrategy) == SessionPhase::Resetting,
        awaiting(SessionAction::Subscribe) == SessionPhase::Subscribing,
        awaiting(SessionAction::ReadFrame) == SessionPhase::Reading,
        awaiting(SessionAction::NextDelay) == SessionPhase::ChoosingDelay,
        forall|payload: String| #[trigger] awaiting(SessionAction::Decode(payload)) == SessionPhase::Decoding,
        forall|message: AisMessage| #[trigger] awaiting(SessionAction::Deliver(message)) == SessionPhase::Delivering,
        forall|error: StreamError| #[trigger] awaiting(SessionAction::Report(error)) == SessionPhase::Reporting,
        forall|delay: Duration| #[trigger] awaiting(SessionAction::Sleep(delay)) == SessionPhase::Sleeping,
{
}

/// The decision state of one stream.
pub struct StreamSession {
    phase: SessionPhase,
}

impl View for StreamSession {
    type V = SessionPhase;

    closed spec fn view(&self) -> SessionPhase {
        self.phase
    }
}

impl StreamSession {
    /// A new session and its first action: connect.
    pub fn start() -> (started: (StreamSession, SessionAction))
        ensures
            started.0@ == SessionPhase::Connecting,
            started.1 is Connect,
    {
        (StreamSession { phase: SessionPhase::Connecting }, SessionAction::Connect)
    }

    /// Which outcome the session waits for.
    pub fn phase(&self) -> (phase: SessionPhase)
        ensures
            phase == self@,
    {
        self.phase
    }

    /// Whether `event` is an outcome the session waits for now.
    pub fn expects(&self, event: &SessionEvent) -> (r: bool)
        ensures
            r == expects(self@, *event),
    {
        match event {
            SessionEvent::Connected | SessionEvent::ConnectFailed => matches!(self.phase, SessionPhase::Connecting),
            SessionEvent::StrategyReset => matches!(self.phase, SessionPhase::Resetting),
            SessionEvent::SubscriptionSent | SessionEvent::SubscriptionFailed => matches!(self.phase, SessionPhase::Subscribing),
            SessionEvent::TextFrame(_) | SessionEvent::BinaryFrame(_) | SessionEvent::ControlFrame
            | SessionEvent::CloseFrame | SessionEvent::ReadFailed | SessionEvent::StreamEnded => matches!(self.phase, SessionPhase::Reading),
            SessionEvent::Decoded(_) | SessionEvent::DecodeFailed(_) => matches!(self.phase, SessionPhase::Decoding),
            SessionEvent::Delivered | SessionEvent::DeliveryFailed => matches!(self.phase, SessionPhase::Delivering),
            SessionEvent::Reported => matches!(self.phase, SessionPhase::Reporting),
            SessionEvent::DelayChosen(_) => matches!(self.phase, SessionPhase::ChoosingDelay),
            SessionEvent::Slept => matches!(self.phase, SessionPhase::Sleeping),
        }
    }

    /// Takes the outcome of the last action and returns the next action. The session then
    /// waits for the outcome of that action.
    pub fn step(&mut self, event: SessionEvent) -> (action: SessionAction)
        requires
            expects(old(self)@, event),
        ensures
            answers(event, action),
            final(self)@ == awaiting(action),
            final(self)@ == next_phase(event),
    {
        let action = match event {
            SessionEvent::Connected => SessionAction::ResetStrategy,
            SessionEvent::StrategyReset => SessionAction::Subscribe,
            SessionEvent::Slept => SessionAction::Connect,
            SessionEvent::ConnectFailed | SessionEvent::SubscriptionFailed | SessionEvent::CloseFrame
            | SessionEvent::ReadFailed | SessionEvent::StreamEnded => SessionAction::NextDelay,
            SessionEvent::DelayChosen(delay) => SessionAction::Sleep(delay),
            SessionEvent::SubscriptionSent | SessionEvent::ControlFrame | SessionEvent::Delivered
            | SessionEvent::Reported => SessionAction::ReadFrame,
            SessionEvent::TextFrame(text) => SessionAction::Decode(text),
            SessionEvent::BinaryFrame(bytes) => match core::str::from_utf8(bytes.as_slice()) {
                Ok(text) => {
                    proof {
                        encode_utf8_decode_utf8(text@);
                    }
                    SessionAction::Decode(text.to_owned())
                },
                Err(error) => SessionAction::Report(StreamError::InvalidUtf8(error)),
            },
            SessionEvent::Decoded(message) => SessionAction::Deliver(message),
            SessionEvent::DecodeFailed(error) => SessionAction::Report(StreamError::Decode(error)),
            SessionEvent::DeliveryFailed => SessionAction::Report(StreamError::ReceiverDropped),
        };
        self.phase = match &action {
            SessionAction::Connect => SessionPhase::Connecting,
            SessionAction::ResetStrategy => SessionPhase::Resetting,
            SessionAction::Subscribe => SessionPhase::Subscribing,
            SessionAction::ReadFrame => SessionPhase::Reading,
            SessionAction::Decode(_) => SessionPhase::Decoding,
            SessionAction::Deliver(_) => SessionPhase::Delivering,
            SessionAction::Report(_) => SessionPhase::Reporting,
            SessionAction::NextDelay => SessionPhase::ChoosingDelay,
            SessionAction::Sleep(_) => SessionPhase::Sleeping,
        };
        action
    }
}

} // verus!
