//! Configuration for connecting to aisstream.io.
//!
//! [`AisStreamConfig`] can be built in code, or read from a JSON file by the application layer.
//! The wire format sent over the WebSocket is
//! [`crate::websocket::model::SubscriptionMessage`].

use vstd::prelude::*;

verus! {

/// Everything needed to open a stream: endpoint, area of interest, credentials, and optional filters.
/// Real numbers are compared by bit pattern: the derived `==` holds two NaN coordinates with
/// the same bits equal, and tells 0.0 from -0.0; `Debug` prints the bits.
#[derive(Debug, Clone, PartialEq)]
pub struct AisStreamConfig {
    /// WebSocket base URL, e.g. `wss://stream.aisstream.io`.
    /// The stream path `/v0/stream` is set on it when a stream is opened.
    pub base_url: String,
    /// Geographic bounding boxes as `[[[lat, lon], [lat, lon]], ...]`; each coordinate is the bit
    /// pattern of an IEEE-754 double-precision number.
    pub bounding_boxes: Vec<Vec<[u64; 2]>>,
    pub credentials: AisStreamCredentials,
    /// Only receive messages from these MMSI numbers (max 50).
    pub filter_ship_mmsi: Option<Vec<String>>,
    /// Only receive these AIS message types.
    pub filter_message_type: Option<Vec<MessageType>>,
}

/// API credentials for aisstream.io.
#[derive(Debug, Clone, PartialEq)]
pub struct AisStreamCredentials {
    pub api_key: String,
    pub api_secret: Option<String>,
}

/// AIS message type names as used by the aisstream.io API.
#[derive(Debug, Clone, Copy, PartialEq, Eq, Structural)]
pub enum MessageType {
    PositionReport,
    AddressedSafetyMessage,
    AddressedBinaryMessage,
    AidsToNavigationReport,
    AssignedModeCommand,
    BaseStationReport,
    BinaryAcknowledge,
    BinaryBroadcastMessage,
    ChannelManagement,
    CoordinatedUTCInquiry,
    DataLinkManagementMessage,
    DataLinkManagementMessageData,
    ExtendedClassBPositionReport,
    GroupAssignmentCommand,
    GnssBroadcastBinaryMessage,
    Interrogation,
    LongRangeAisBroadcastMessage,
    MultiSlotBinaryMessage,
    SafetyBroadcastMessage,
    ShipStaticData,
    SingleSlotBinaryMessage,
    StandardClassBPositionReport,
    StandardSearchAndRescueAircraftReport,
    StaticDataReport,
    UnknownMessage,
}

impl AisStreamConfig {
    /// Build a config in code. Pass `None` for filters you don't need.
    pub fn new(
        base_url: String,
        bounding_boxes: Vec<Vec<[u64; 2]>>,
        credentials: AisStreamCredentials,
        filter_ship_mmsi: Option<Vec<String>>,
        filter_message_type: Option<Vec<MessageType>>,
    ) -> (config: Self)
        ensures
            config.base_url == base_url,
            config.bounding_boxes == bounding_boxes,
            config.credentials == credentials,
            config.filter_ship_mmsi == filter_ship_mmsi,
            config.filter_message_type == filter_message_type,
    {
        AisStreamConfig { base_url, bounding_boxes, credentials, filter_ship_mmsi, filter_message_type }
    }
}

} // verus!
