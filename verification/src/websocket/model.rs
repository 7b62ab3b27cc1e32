//! The message model of the aisstream.io WebSocket API.
//!
//! There are three layers:
//!
//! - [`SubscriptionMessage`] — what is sent when connecting
//! - [`AisMessage`] — the envelope for each event (`Message`, `MessageType`, `MetaData`)
//! - [`AisStreamMessage`] — the tagged union inside `Message`, one variant per AIS message type
//!
//! The structs below `AisStreamMessage` mirror the API message models field for field.
//! Real-valued fields (coordinates, speeds, courses, draughts) hold the bit pattern of an IEEE-754 double-precision number
//! that the wire format carries, so that values pass through the library unchanged. The derived
//! `==` of these types therefore compares real numbers by bit pattern: two NaNs with the same bits
//! are equal, 0.0 and -0.0 are not. The derived `Debug` prints the bits.

use vstd::prelude::*;

use crate::config::MessageType;

verus! {

/// Subscription payload sent immediately after the WebSocket connects.
///
/// Must be sent within 3 seconds of connecting or the server closes the connection.
/// Real numbers are compared by bit pattern: the derived `==` holds two NaN coordinates with
/// the same bits equal, and tells 0.0 from -0.0; `Debug` prints the bits.
#[derive(Clone, PartialEq, Debug)]
pub struct SubscriptionMessage {
    pub api_key: String,
    /// `[latitude, longitude]` corners, each the bit pattern of an IEEE-754 double-precision number.
    pub bounding_boxes: Vec<Vec<[u64; 2]>>,
    pub filters_ship_mmsi: Vec<String>,
    pub filter_message_types: Vec<MessageType>,
}

/// Extra context about a message that isn't part of the raw AIS payload — ship name, MMSI, etc.
/// Real numbers are compared by bit pattern: the derived `==` holds two NaN coordinates with
/// the same bits equal, and tells 0.0 from -0.0; `Debug` prints the bits.
#[derive(Clone, PartialEq, Debug)]
pub struct AisMessageMetadata {
    pub mmsi: i64,
    pub ship_name: String,
    /// The bit pattern of an IEEE-754 double-precision number.
    pub latitude: u64,
    /// The bit pattern of an IEEE-754 double-precision number.
    pub longitude: u64,
    pub time_utc: String,
}

/// A single event from the aisstream.io WebSocket.
/// Real numbers are compared by bit pattern: the derived `==` holds two NaN coordinates with
/// the same bits equal, and tells 0.0 from -0.0; `Debug` prints the bits.
#[derive(Clone, PartialEq, Debug)]
pub struct AisMessage {
    pub message: AisStreamMessage,
    pub message_type: MessageType,
    pub metadata: AisMessageMetadata,
}

/// The AIS payload inside [`AisMessage::message`], tagged by message type name.
#[derive(Clone, PartialEq, Debug)]
pub enum AisStreamMessage {
    BaseStationReport(BaseStationReport),
    MultiSlotBinaryMessage(MultiSlotBinaryMessage),
    ExtendedClassBPositionReport(ExtendedClassBPositionReport),
    SafetyBroadcastMessage(SafetyBroadcastMessage),
    PositionReport(PositionReport),
    ShipStaticData(ShipStaticData),
    StandardClassBPositionReport(StandardClassBPositionReport),
    StandardSearchAndRescueAircraftReport(StandardSearchAndRescueAircraftReport),
    StaticDataReport(StaticDataReport),
    SingleSlotBinaryMessage(SingleSlotBinaryMessage),
    Interrogation(Interrogation),
    LongRangeAisBroadcastMessage(LongRangeAisBroadcastMessage),
    GnssBroadcastBinaryMessage(GnssBroadcastBinaryMessage),
    DataLinkManagementMessage(DataLinkManagementMessage),
    DataLinkManagementMessageData(DataLinkManagementMessageData),
    AddressedSafetyMessage(AddressedSafetyMessage),
    AddressedBinaryMessage(AddressedBinaryMessage),
    CoordinatedUTCInquiry(CoordinatedUTCInquiry),
    BinaryAcknowledge(BinaryAcknowledge),
    BinaryBroadcastMessage(BinaryBroadcastMessage),
    ChannelManagement(ChannelManagement),
    AssignedModeCommand(AssignedModeCommand),
    AidsToNavigationReport(AidsToNavigationReport),
    GroupAssignmentCommand(GroupAssignmentCommand),
    UnknownMessage(UnknownMessage),
}

/// Application identifier used in binary AIS messages.
#[derive(Clone, PartialEq, Debug)]
pub struct ApplicationId {
    pub designated_area_code: i64,
    pub function_identifier: i64,
    pub valid: bool,
}

/// Vessel dimensions: distances from the reference point to bow, stern, port, and starboard.
#[derive(Clone, PartialEq, Debug)]
pub struct Dimension {
    pub a: i64,
    pub b: i64,
    pub c: i64,
    pub d: i64,
}

/// Estimated time of arrival.
#[derive(Clone, PartialEq, Debug)]
pub struct Eta {
    pub month: i64,
    pub day: i64,
    pub hour: i64,
    pub minute: i64,
}

#[derive(Clone, PartialEq, Debug)]
pub struct DataLinkManagementMessageDataSlot {
    pub valid: bool,
    pub offset: i64,
    pub integer_of_slots: i64,
    pub time_out: i64,
    pub increment: i64,
}

#[derive(Clone, PartialEq, Debug)]
pub struct DataLinkManagementMessageData {
    pub slot_0: DataLinkManagementMessageDataSlot,
    pub slot_1: DataLinkManagementMessageDataSlot,
    pub slot_2: DataLinkManagementMessageDataSlot,
    pub slot_3: DataLinkManagementMessageDataSlot,
}

#[derive(Clone, PartialEq, Debug)]
pub struct BinaryAcknowledgeDestination {
    pub valid: bool,
    pub destination_id: i64,
    pub sequenceinteger: i64,
}

#[derive(Clone, PartialEq, Debug)]
pub struct BinaryAcknowledgeDestinations {
    pub slot_0: BinaryAcknowledgeDestination,
    pub slot_1: BinaryAcknowledgeDestination,
    pub slot_2: BinaryAcknowledgeDestination,
    pub slot_3: BinaryAcknowledgeDestination,
}

#[derive(Clone, PartialEq, Debug)]
pub struct AssignedModeCommandEntry {
    pub valid: bool,
    pub destination_id: i64,
    pub offset: i64,
    pub increment: i64,
}

#[derive(Clone, PartialEq, Debug)]
pub struct AssignedModeCommandCommands {
    pub slot_0: AssignedModeCommandEntry,
    pub slot_1: AssignedModeCommandEntry,
}

#[derive(Clone, PartialEq, Debug)]
pub struct InterrogationStation1Msg1 {
    pub valid: bool,
    pub station_id: i64,
    pub message_id: i64,
    pub slot_offset: i64,
}

#[derive(Clone, PartialEq, Debug)]
pub struct InterrogationStation1Msg2 {
    pub valid: bool,
    pub spare: i64,
    pub message_id: i64,
    pub slot_offset: i64,
}

#[derive(Clone, PartialEq, Debug)]
pub struct InterrogationStation2 {
    pub valid: bool,
    pub spare1: i64,
    pub station_id: i64,
    pub message_id: i64,
    pub slot_offset: i64,
    pub spare2: i64,
}

#[derive(Clone, PartialEq, Debug)]
pub struct ChannelManagementArea {
    /// The bit pattern of an IEEE-754 double-precision number.
    pub longitude1: u64,
    /// The bit pattern of an IEEE-754 double-precision number.
    pub latitude1: u64,
    /// The bit pattern of an IEEE-754 double-precision number.
    pub longitude2: u64,
    /// The bit pattern of an IEEE-754 double-precision number.
    pub latitude2: u64,
}

#[derive(Clone, PartialEq, Debug)]
pub struct ChannelManagementUnicast {
    pub address_station1: i64,
    pub spare2: i64,
    pub address_station2: i64,
    pub spare3: i64,
}

#[derive(Clone, PartialEq, Debug)]
pub struct StaticDataReportA {
    pub valid: bool,
    pub name: String,
}

#[derive(Clone, PartialEq, Debug)]
pub struct StaticDataReportB {
    pub valid: bool,
    pub ship_type: i64,
    pub vendor_id_name: String,
    pub vender_id_model: i64,
    pub vender_id_serial: i64,
    pub call_sign: String,
    pub dimension: Dimension,
    pub fix_type: i64,
    pub spare: i64,
}

/// AIS message type 4 — base station position and UTC time.
#[derive(Clone, PartialEq, Debug)]
pub struct BaseStationReport {
    pub communication_state: i64,
    pub fix_type: i64,
    /// The bit pattern of an IEEE-754 double-precision number.
    pub latitude: u64,
    pub long_range_enable: bool,
    /// The bit pattern of an IEEE-754 double-precision number.
    pub longitude: u64,
    pub message_id: i64,
    pub position_accuracy: bool,
    pub raim: bool,
    pub repeat_indicator: i64,
    pub spare: i64,
    pub user_id: i64,
    pub utc_day: i64,
    pub utc_hour: i64,
    pub utc_minute: i64,
    pub utc_month: i64,
    pub utc_second: i64,
    pub utc_year: i64,
    pub valid: bool,
}

#[derive(Clone, PartialEq, Debug)]
pub struct MultiSlotBinaryMessage {
    pub application_id: ApplicationId,
    pub application_id_valid: bool,
    pub communication_state: i64,
    pub communication_state_is_itdma: bool,
    pub destination_id: i64,
    pub destination_id_valid: bool,
    pub message_id: i64,
    pub payload: String,
    pub repeat_indicator: i64,
    pub spare1: i64,
    pub spare2: i64,
    pub user_id: i64,
    pub valid: bool,
}

#[derive(Clone, PartialEq, Debug)]
pub struct ExtendedClassBPositionReport {
    pub assigned_mode: bool,
    /// The bit pattern of an IEEE-754 double-precision number.
    pub cog: u64,
    pub dimension: Dimension,
    pub dte: bool,
    pub fix_type: i64,
    /// The bit pattern of an IEEE-754 double-precision number.
    pub latitude: u64,
    /// The bit pattern of an IEEE-754 double-precision number.
    pub longitude: u64,
    pub message_id: i64,
    pub name: String,
    pub position_accuracy: bool,
    pub raim: bool,
    pub repeat_indicator: i64,
    /// The bit pattern of an IEEE-754 double-precision number.
    pub sog: u64,
    pub spare1: i64,
    pub spare2: i64,
    pub spare3: i64,
    pub timestamp: i64,
    pub true_heading: i64,
    /// The `Type` field of the message.
    pub type_: i64,
    pub user_id: i64,
    pub valid: bool,
}

#[derive(Clone, PartialEq, Debug)]
pub struct SafetyBroadcastMessage {
    pub message_id: i64,
    pub repeat_indicator: i64,
    pub spare: i64,
    pub text: String,
    pub user_id: i64,
    pub valid: bool,
}

/// AIS message type 1/2/3 — vessel position, course, and speed.
#[derive(Clone, PartialEq, Debug)]
pub struct PositionReport {
    /// The bit pattern of an IEEE-754 double-precision number.
    pub cog: u64,
    pub communication_state: i64,
    /// The bit pattern of an IEEE-754 double-precision number.
    pub latitude: u64,
    /// The bit pattern of an IEEE-754 double-precision number.
    pub longitude: u64,
    pub message_id: i64,
    pub navigational_status: i64,
    pub position_accuracy: bool,
    pub raim: bool,
    pub rate_of_turn: i64,
    pub repeat_indicator: i64,
    /// The bit pattern of an IEEE-754 double-precision number.
    pub sog: u64,
    pub spare: i64,
    pub special_manoeuvre_indicator: i64,
    pub timestamp: i64,
    pub true_heading: i64,
    pub user_id: i64,
    pub valid: bool,
}

/// AIS message type 5 — static vessel data (name, dimensions, destination, etc.).
#[derive(Clone, PartialEq, Debug)]
pub struct ShipStaticData {
    pub ais_version: i64,
    pub call_sign: String,
    pub destination: String,
    pub dimension: Dimension,
    pub dte: bool,
    pub eta: Eta,
    pub fix_type: i64,
    pub imo_number: i64,
    /// The bit pattern of an IEEE-754 double-precision number.
    pub maximum_static_draught: u64,
    pub message_id: i64,
    pub name: String,
    pub repeat_indicator: i64,
    pub spare: bool,
    /// The `Type` field of the message.
    pub type_: i64,
    pub user_id: i64,
    pub valid: bool,
}

#[derive(Clone, PartialEq, Debug)]
pub struct StandardClassBPositionReport {
    pub assigned_mode: bool,
    pub class_b_band: bool,
    pub class_b_display: bool,
    pub class_b_dsc: bool,
    pub class_b_msg22: bool,
    pub class_b_unit: bool,
    /// The bit pattern of an IEEE-754 double-precision number.
    pub cog: u64,
    pub communication_state: i64,
    pub communication_state_is_itdma: bool,
    /// The bit pattern of an IEEE-754 double-precision number.
    pub latitude: u64,
    /// The bit pattern of an IEEE-754 double-precision number.
    pub longitude: u64,
    pub message_id: i64,
    pub position_accuracy: bool,
    pub raim: bool,
    pub repeat_indicator: i64,
    /// The bit pattern of an IEEE-754 double-precision number.
    pub sog: u64,
    pub spare1: i64,
    pub spare2: i64,
    pub timestamp: i64,
    pub true_heading: i64,
    pub user_id: i64,
    pub valid: bool,
}

#[derive(Clone, PartialEq, Debug)]
pub struct StandardSearchAndRescueAircraftReport {
    pub alt_from_baro: bool,
    pub altitude: i64,
    pub assigned_mode: bool,
    /// The bit pattern of an IEEE-754 double-precision number.
    pub cog: u64,
    pub communication_state: i64,
    pub communication_state_is_itdma: bool,
    pub dte: bool,
    /// The bit pattern of an IEEE-754 double-precision number.
    pub latitude: u64,
    /// The bit pattern of an IEEE-754 double-precision number.
    pub longitude: u64,
    pub message_id: i64,
    pub position_accuracy: bool,
    pub raim: bool,
    pub repeat_indicator: i64,
    /// The bit pattern of an IEEE-754 double-precision number.
    pub sog: u64,
    pub spare1: i64,
    pub spare2: i64,
    pub timestamp: i64,
    pub user_id: i64,
    pub valid: bool,
}

#[derive(Clone, PartialEq, Debug)]
pub struct StaticDataReport {
    pub message_id: i64,
    pub part_number: bool,
    pub repeat_indicator: i64,
    pub report_a: StaticDataReportA,
    pub report_b: StaticDataReportB,
    pub reserved: i64,
    pub user_id: i64,
    pub valid: bool,
}

#[derive(Clone, PartialEq, Debug)]
pub struct SingleSlotBinaryMessage {
    pub application_id: ApplicationId,
    pub application_id_valid: bool,
    pub destination_id: i64,
    pub destination_id_valid: bool,
    pub message_id: i64,
    pub payload: String,
    pub repeat_indicator: i64,
    pub spare: i64,
    pub user_id: i64,
    pub valid: bool,
}

#[derive(Clone, PartialEq, Debug)]
pub struct Interrogation {
    pub message_id: i64,
    pub repeat_indicator: i64,
    pub spare: i64,
    pub station1_msg1: InterrogationStation1Msg1,
    pub station1_msg2: InterrogationStation1Msg2,
    pub station2: InterrogationStation2,
    pub user_id: i64,
    pub valid: bool,
}

#[derive(Clone, PartialEq, Debug)]
pub struct LongRangeAisBroadcastMessage {
    /// The bit pattern of an IEEE-754 double-precision number.
    pub cog: u64,
    /// The bit pattern of an IEEE-754 double-precision number.
    pub latitude: u64,
    /// The bit pattern of an IEEE-754 double-precision number.
    pub longitude: u64,
    pub message_id: i64,
    pub navigational_status: i64,
    pub position_accuracy: bool,
    pub position_latency: bool,
    pub raim: bool,
    pub repeat_indicator: i64,
    /// The bit pattern of an IEEE-754 double-precision number.
    pub sog: u64,
    pub spare: bool,
    pub user_id: i64,
    pub valid: bool,
}

#[derive(Clone, PartialEq, Debug)]
pub struct GnssBroadcastBinaryMessage {
    pub data: String,
    /// The bit pattern of an IEEE-754 double-precision number.
    pub latitude: u64,
    /// The bit pattern of an IEEE-754 double-precision number.
    pub longitude: u64,
    pub message_id: i64,
    pub repeat_indicator: i64,
    pub spare1: i64,
    pub spare2: i64,
    pub user_id: i64,
    pub valid: bool,
}

#[derive(Clone, PartialEq, Debug)]
pub struct DataLinkManagementMessage {
    pub data: DataLinkManagementMessageData,
    pub message_id: i64,
    pub repeat_indicator: i64,
    pub spare: i64,
    pub user_id: i64,
    pub valid: bool,
}

#[derive(Clone, PartialEq, Debug)]
pub struct AddressedSafetyMessage {
    pub destination_id: i64,
    pub message_id: i64,
    pub repeat_indicator: i64,
    pub retransmission: bool,
    pub sequenceinteger: i64,
    pub spare: bool,
    pub text: String,
    pub user_id: i64,
    pub valid: bool,
}

#[derive(Clone, PartialEq, Debug)]
pub struct AddressedBinaryMessage {
    pub application_id: ApplicationId,
    pub binary_data: String,
    pub destination_id: i64,
    pub message_id: i64,
    pub repeat_indicator: i64,
    pub retransmission: bool,
    pub sequenceinteger: i64,
    pub spare: bool,
    pub user_id: i64,
    pub valid: bool,
}

#[derive(Clone, PartialEq, Debug)]
pub struct CoordinatedUTCInquiry {
    pub destination_id: i64,
    pub message_id: i64,
    pub repeat_indicator: i64,
    pub spare1: i64,
    pub spare2: i64,
    pub user_id: i64,
    pub valid: bool,
}

#[derive(Clone, PartialEq, Debug)]
pub struct BinaryAcknowledge {
    pub destinations: BinaryAcknowledgeDestinations,
    pub message_id: i64,
    pub repeat_indicator: i64,
    pub spare: i64,
    pub user_id: i64,
    pub valid: bool,
}

#[derive(Clone, PartialEq, Debug)]
pub struct BinaryBroadcastMessage {
    pub application_id: ApplicationId,
    pub binary_data: String,
    pub message_id: i64,
    pub repeat_indicator: i64,
    pub spare: i64,
    pub user_id: i64,
    pub valid: bool,
}

#[derive(Clone, PartialEq, Debug)]
pub struct ChannelManagement {
    pub area: ChannelManagementArea,
    pub bw_a: bool,
    pub bw_b: bool,
    pub channel_a: i64,
    pub channel_b: i64,
    pub is_addressed: bool,
    pub low_power: bool,
    pub message_id: i64,
    pub repeat_indicator: i64,
    pub spare1: i64,
    pub spare4: i64,
    pub transitional_zone_size: i64,
    pub tx_rx_mode: i64,
    pub unicast: ChannelManagementUnicast,
    pub user_id: i64,
    pub valid: bool,
}

#[derive(Clone, PartialEq, Debug)]
pub struct AssignedModeCommand {
    pub commands: AssignedModeCommandCommands,
    pub message_id: i64,
    pub repeat_indicator: i64,
    pub spare: i64,
    pub user_id: i64,
    pub valid: bool,
}

#[derive(Clone, PartialEq, Debug)]
pub struct AidsToNavigationReport {
    pub assigned_mode: bool,
    pub ato_n: i64,
    pub dimension: Dimension,
    pub fixtype: i64,
    /// The bit pattern of an IEEE-754 double-precision number.
    pub latitude: u64,
    /// The bit pattern of an IEEE-754 double-precision number.
    pub longitude: u64,
    pub message_id: i64,
    pub name: String,
    pub name_extension: String,
    pub off_position: bool,
    pub position_accuracy: bool,
    pub raim: bool,
    pub repeat_indicator: i64,
    pub spare: bool,
    pub timestamp: i64,
    /// The `Type` field of the message.
    pub type_: i64,
    pub user_id: i64,
    pub valid: bool,
    pub virtual_ato_n: bool,
}

#[derive(Clone, PartialEq, Debug)]
pub struct GroupAssignmentCommand {
    /// The bit pattern of an IEEE-754 double-precision number.
    pub latitude1: u64,
    /// The bit pattern of an IEEE-754 double-precision number.
    pub latitude2: u64,
    /// The bit pattern of an IEEE-754 double-precision number.
    pub longitude1: u64,
    /// The bit pattern of an IEEE-754 double-precision number.
    pub longitude2: u64,
    pub message_id: i64,
    pub quiet_time: i64,
    pub repeat_indicator: i64,
    pub reporting_interval: i64,
    pub ship_type: i64,
    pub spare1: i64,
    pub spare2: i64,
    pub spare3: i64,
    pub station_type: i64,
    pub tx_rx_mode: i64,
    pub user_id: i64,
    pub valid: bool,
}

/// Returned when the server sends a message type this client doesn't recognise.
#[derive(Clone, PartialEq, Debug)]
pub struct UnknownMessage {
    pub error: Option<String>,
}

} // verus!
