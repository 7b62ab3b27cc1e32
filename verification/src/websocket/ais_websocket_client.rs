//! The aisstream.io client: its settings, the URL it connects to, and the subscription it sends.
//!
//! [`AisWebsocketClient`] holds the configuration and the reconnect strategy. Opening a stream
//! connects to [`AisWebsocketClient::stream_url`], sends
//! [`AisWebsocketClient::subscription`] and then follows the decisions of a
//! [`StreamSession`](super::session::StreamSession).

use url::{ParseError, Url};
use vstd::prelude::*;

use crate::config::{AisStreamConfig, MessageType};
use crate::websocket::model::SubscriptionMessage;
use crate::websocket::reconnect_strategy::{
    duration_nanos, AISStreamReconnectStrategy, BackoffView, ExponentialBackoff,
};

verus! {

/// `url::ParseError`, the error `Url::parse` reports.
#[verifier::external_type_specification]
#[verifier::external_body]
pub struct ExParseError(ParseError);

/// Whether `url::Url::parse` accepts `input` as an absolute URL.
pub uninterp spec fn url_parses(input: Seq<char>) -> bool;

/// The serialization of the URL that `url::Url::parse` builds from `input`, after
/// `url::Url::set_path(path)` replaced its path.
pub uninterp spec fn url_with_path(input: Seq<char>, path: Seq<char>) -> Seq<char>;

/// Trusted: parses `input` with `url::Url::parse`, sets the path with `url::Url::set_path`, and
/// returns the serialization (`String::from(Url)`). The result is `Ok` exactly when `Url::parse`
/// accepts the input (named `url_parses`); the URL text is named `url_with_path`. What the url
/// crate does to the text (normalisation, percent-encoding) is not stated. The length bound keeps
/// the serialization under the `u32` limit that `set_path` unwraps.
#[verifier::external_body]
fn parse_url_with_path(input: &str, path: &str) -> (r: Result<String, ParseError>)
    requires
        input@.len() + path@.len() <= 0x1000_0000,
    ensures
        r is Ok <==> url_parses(input@),
        r matches Ok(s) ==> s@ == url_with_path(input@, path@),
{
    let mut url = Url::parse(input)?;
    url.set_path(path);
    Ok(url.into())
}

/// The path of the aisstream.io streaming endpoint.
pub const AIS_STREAM_PATH: &'static str = "/v0/stream";

/// Whether `url` is the stream URL for `base_url`: the url crate's serialization of `base_url`
/// with its path set to [`AIS_STREAM_PATH`].
pub open spec fn is_stream_url_of(base_url: Seq<char>, url: Seq<char>) -> bool {
    url == url_with_path(base_url, AIS_STREAM_PATH@)
}

/// A stream always connects to the `/v0/stream` path of the configured base URL, and to nothing
/// else: the stream URL of a base URL is unique.
pub proof fn law_stream_url_uses_stream_path(base_url: Seq<char>, url: Seq<char>, other: Seq<char>)
    requires
        is_stream_url_of(base_url, url),
    ensures
        url == url_with_path(base_url, "/v0/stream"@),
        is_stream_url_of(base_url, other) ==> other == url,
{
    reveal_strlit("/v0/stream");
}

/// The URL a stream connects to: `base_url` with its path replaced by [`AIS_STREAM_PATH`].
/// Fails exactly when `base_url` is not an absolute URL.
pub fn stream_url(base_url: &str) -> (r: Result<String, ParseError>)
    requires
        base_url@.len() <= 0x0fff_0000,
    ensures
        r is Ok <==> url_parses(base_url@),
        r matches Ok(s) ==> is_stream_url_of(base_url@, s@),
{
    proof {
        reveal_strlit("/v0/stream");
    }
    parse_url_with_path(base_url, AIS_STREAM_PATH)
}

/// The text of each string in `v`.
pub open spec fn texts(v: Seq<String>) -> Seq<Seq<char>> {
    v.map_values(|s: String| s@)
}

/// The corners of each bounding box in `boxes`.
pub open spec fn corners(boxes: Seq<Vec<[u64; 2]>>) -> Seq<Seq<[u64; 2]>> {
    boxes.map_values(|b: Vec<[u64; 2]>| b@)
}

/// The subscription that `config` asks for: its API key and bounding boxes, and its filters,
/// with an absent filter sent as an empty list (which the wire format then leaves out).
pub open spec fn subscribes_to(msg: SubscriptionMessage, config: AisStreamConfig) -> bool {
    &&& msg.api_key@ == config.credentials.api_key@
    &&& corners(msg.bounding_boxes@) == corners(config.bounding_boxes@)
    &&& texts(msg.filters_ship_mmsi@) == match config.filter_ship_mmsi {
        Some(v) => texts(v@),
        None => Seq::empty(),
    }
    &&& msg.filter_message_types@ == match config.filter_message_type {
        Some(v) => v@,
        None => Seq::empty(),
    }
}

/// The subscription carries the configured API key (never the secret), every bounding box with
/// its corners as configured, and each filter as configured: an absent filter becomes an empty
/// list, and each filter is taken from its own setting only.
pub proof fn law_subscription_follows_config(msg: SubscriptionMessage, config: AisStreamConfig)
    requires
        subscribes_to(msg, config),
    ensures
        msg.api_key@ == config.credentials.api_key@,
        msg.bounding_boxes@.len() == config.bounding_boxes@.len(),
        forall|i: int|
            0 <= i < msg.bounding_boxes@.len() ==> #[trigger] msg.bounding_boxes@[i]@
                == config.bounding_boxes@[i]@,
        config.filter_ship_mmsi is None ==> msg.filters_ship_mmsi@.len() == 0,
        config.filter_ship_mmsi matches Some(mmsi) ==> msg.filters_ship_mmsi@.len() == mmsi@.len()
            && forall|i: int|
            0 <= i < mmsi@.len() ==> #[trigger] msg.filters_ship_mmsi@[i]@ == mmsi@[i]@,
        config.filter_message_type is None ==> msg.filter_message_types@.len() == 0,
        config.filter_message_type matches Some(types) ==> msg.filter_message_types@ == types@,
{
    assert(msg.bounding_boxes@.len() == corners(msg.bounding_boxes@).len());
    assert forall|i: int| 0 <= i < msg.bounding_boxes@.len() implies #[trigger] msg.bounding_boxes@[i]@
        == config.bounding_boxes@[i]@ by {
        assert(corners(msg.bounding_boxes@)[i] == msg.bounding_boxes@[i]@);
        assert(corners(config.bounding_boxes@)[i] == config.bounding_boxes@[i]@);
    }
    assert(msg.filters_ship_mmsi@.len() == texts(msg.filters_ship_mmsi@).len());
    if let Some(mmsi) = config.filter_ship_mmsi {
        assert forall|i: int| 0 <= i < mmsi@.len() implies #[trigger] msg.filters_ship_mmsi@[i]@
            == mmsi@[i]@ by {
            assert(texts(msg.filters_ship_mmsi@)[i] == msg.filters_ship_mmsi@[i]@);
            assert(texts(mmsi@)[i] == mmsi@[i]@);
        }
    }
}

/// Settings that differ only in the API secret, or only in the MMSI filter, give subscriptions
/// with the same API key, bounding boxes and message-type filter: neither setting leaks into
/// another field.
pub proof fn law_subscription_fields_are_independent(
    msg1: SubscriptionMessage,
    config1: AisStreamConfig,
    msg2: SubscriptionMessage,
    config2: AisStreamConfig,
)
    requires
        subscribes_to(msg1, config1),
        subscribes_to(msg2, config2),
        config1.credentials.api_key@ == config2.credentials.api_key@,
        config1.bounding_boxes == config2.bounding_boxes,
        config1.filter_message_type == config2.filter_message_type,
    ensures
        msg1.api_key@ == msg2.api_key@,
        msg1.filter_message_types@ == msg2.filter_message_types@,
        msg1.bounding_boxes@.len() == msg2.bounding_boxes@.len(),
        forall|i: int|
            0 <= i < msg1.bounding_boxes@.len() ==> #[trigger] msg1.bounding_boxes@[i]@
                == msg2.bounding_boxes@[i]@,
{
    law_subscription_follows_config(msg1, config1);
    law_subscription_follows_config(msg2, config2);
    assert forall|i: int| 0 <= i < msg1.bounding_boxes@.len() implies #[trigger] msg1.bounding_boxes@[i]@
        == msg2.bounding_boxes@[i]@ by {
        assert(msg1.bounding_boxes@[i]@ == config1.bounding_boxes@[i]@);
        assert(msg2.bounding_boxes@[i]@ == config2.bounding_boxes@[i]@);
    }
}

fn copy_strings(v: &Vec<String>) -> (out: Vec<String>)
    ensures
        texts(out@) == texts(v@),
{
    let mut out: Vec<String> = Vec::new();
    let mut i: usize = 0;
    while i < v.len()
        invariant
            i <= v.len(),
            out@.len() == i,
            forall|j: int| 0 <= j < i ==> #[trigger] out@[j]@ == v@[j]@,
        decreases v.len() - i,
    {
        out.push(v[i].clone());
        i = i + 1;
    }
    assert(texts(out@) =~= texts(v@));
    out
}

fn copy_message_types(v: &Vec<MessageType>) -> (out: Vec<MessageType>)
    ensures
        out@ == v@,
{
    let mut out: Vec<MessageType> = Vec::new();
    let mut i: usize = 0;
    while i < v.len()
        invariant
            i <= v.len(),
            out@ == v@.take(i as int),
        decreases v.len() - i,
    {
        out.push(v[i]);
        i = i + 1;
        assert(out@ =~= v@.take(i as int));
    }
    assert(v@.take(v.len() as int) =~= v@);
    out
}

fn copy_corners(b: &Vec<[u64; 2]>) -> (out: Vec<[u64; 2]>)
    ensures
        out@ == b@,
{
    let mut out: Vec<[u64; 2]> = Vec::new();
    let mut i: usize = 0;
    while i < b.len()
        invariant
            i <= b.len(),
            out@ == b@.take(i as int),
        decreases b.len() - i,
    {
        out.push(b[i]);
        i = i + 1;
        assert(out@ =~= b@.take(i as int));
    }
    assert(b@.take(b.len() as int) =~= b@);
    out
}

fn copy_boxes(boxes: &Vec<Vec<[u64; 2]>>) -> (out: Vec<Vec<[u64; 2]>>)
    ensures
        corners(out@) == corners(boxes@),
{
    let mut out: Vec<Vec<[u64; 2]>> = Vec::new();
    let mut i: usize = 0;
    while i < boxes.len()
        invariant
            i <= boxes.len(),
            out@.len() == i,
            forall|j: int| 0 <= j < i ==> #[trigger] out@[j]@ == boxes@[j]@,
        decreases boxes.len() - i,
    {
        out.push(copy_corners(&boxes[i]));
        i = i + 1;
    }
    assert(corners(out@) =~= corners(boxes@));
    out
}

/// The subscription payload for `config`.
pub fn subscription_message(config: &AisStreamConfig) -> (msg: SubscriptionMessage)
    ensures
        subscribes_to(msg, *config),
{
    let filters_ship_mmsi = match &config.filter_ship_mmsi {
        Some(v) => copy_strings(v),
        None => Vec::new(),
    };
    let filter_message_types = match &config.filter_message_type {
        Some(v) => copy_message_types(v),
        None => Vec::new(),
    };
    let msg = SubscriptionMessage {
        api_key: config.credentials.api_key.clone(),
        bounding_boxes: copy_boxes(&config.bounding_boxes),
        filters_ship_mmsi,
        filter_message_types,
    };
    proof {
        if config.filter_ship_mmsi is None {
            assert(texts(msg.filters_ship_mmsi@) =~= Seq::empty());
        }
    }
    msg
}

/// Client for streaming AIS data from aisstream.io.
///
/// Created with [`Self::new`] (exponential backoff reconnect) or [`Self::with_strategy`] for a
/// custom reconnect policy.
#[derive(Clone)]
pub struct AisWebsocketClient<R = ExponentialBackoff> {
    config: AisStreamConfig,
    reconnect_strategy: R,
}

impl<R> AisWebsocketClient<R> {
    /// The settings the client streams with.
    pub closed spec fn settings(&self) -> AisStreamConfig {
        self.config
    }

    /// The reconnect strategy the client starts each stream with.
    pub closed spec fn strategy(&self) -> R {
        self.reconnect_strategy
    }
}

impl AisWebsocketClient<ExponentialBackoff> {
    /// A client with the default exponential backoff reconnect strategy (1s doubling up to 30s).
    pub fn new(config: AisStreamConfig) -> (client: Self)
        ensures
            client.settings() == config,
            client.strategy()@ == (BackoffView { attempt: 0, base_ms: 1000, max_ms: 30000 }),
            duration_nanos(client.strategy().base_delay()) == 1_000_000_000,
            duration_nanos(client.strategy().max_delay()) == 30_000_000_000,
    {
        AisWebsocketClient { config, reconnect_strategy: ExponentialBackoff::default() }
    }
}

impl<R> AisWebsocketClient<R> where R: AISStreamReconnectStrategy + Clone + Send + 'static {
    /// A client with a custom reconnect strategy.
    pub fn with_strategy(config: AisStreamConfig, reconnect_strategy: R) -> (client: Self)
        ensures
            client.settings() == config,
            client.strategy() == reconnect_strategy,
    {
        AisWebsocketClient { config, reconnect_strategy }
    }

    /// The settings the client streams with.
    pub fn config(&self) -> (config: &AisStreamConfig)
        ensures
            *config == self.settings(),
    {
        &self.config
    }

    /// The reconnect strategy each stream starts from (a stream works on its own copy).
    pub fn reconnect_strategy(&self) -> (strategy: &R)
        ensures
            *strategy == self.strategy(),
    {
        &self.reconnect_strategy
    }

    /// The subscription a stream sends right after connecting.
    pub fn subscription(&self) -> (msg: SubscriptionMessage)
        ensures
            subscribes_to(msg, self.settings()),
    {
        subscription_message(&self.config)
    }

    /// The URL a stream connects to; an error when the configured base URL does not parse.
    pub fn stream_url(&self) -> (r: Result<String, ParseError>)
        requires
            self.settings().base_url@.len() <= 0x0fff_0000,
        ensures
            r is Ok <==> url_parses(self.settings().base_url@),
            r matches Ok(s) ==> is_stream_url_of(self.settings().base_url@, s@),
    {
        stream_url(self.config.base_url.as_str())
    }
}

} // verus!
