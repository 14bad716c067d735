//! The library's model of the protocol packets that its logic reads.
//!
//! A packet on the wire carries many fields; the decisions of this library
//! read only a few of them (which kind of packet it is, the UUIDs it carries,
//! a handful of login fields). `PacketView` holds exactly those as plain
//! values, and `PacketModel` is its mathematical view.

use vstd::prelude::*;

verus! {

/// The state that a handshake asks the connection to enter next.
#[derive(Clone, Copy, Debug, PartialEq, Eq, Structural)]
pub enum NextState {
    Status,
    Login,
}

/// The protocol state of a connection.
#[derive(Clone, Copy, Debug, PartialEq, Eq, Structural)]
pub enum ProtocolState {
    Handshaking,
    Status,
    Login,
    Play,
}

/// Which way the packets of a connection travel: `ServerBound` when the peer
/// is a server, `ClientBound` when the peer is a client.
#[derive(Clone, Copy, Debug, PartialEq, Eq, Structural)]
pub enum PacketDirection {
    ClientBound,
    ServerBound,
}

/// What the library reads of a packet.
///
/// * `PlayPlayerInfo` holds the UUID of every entry of its action list, in order.
/// * `PlayEntityProperties` holds, for each property in order, the UUIDs of its
///   modifiers in order.
/// * `PlayEntityMetadata` holds one entry per metadata field, in order: the UUID
///   of a field that holds a present optional UUID, `None` for any other field.
/// * `Other` stands for every packet whose content the library does not read.
#[derive(Clone, Debug, PartialEq, Eq)]
pub enum PacketView {
    Handshake { next_state: NextState },
    LoginEncryptionRequest { server_id: String, public_key: Vec<u8>, verify_token: Vec<u8> },
    LoginSetCompression { threshold: i32 },
    LoginSuccess { uuid: u128, username: String },
    PlaySpawnEntity { object_uuid: u128 },
    PlaySpawnLivingEntity { entity_uuid: u128 },
    PlaySpawnPainting { entity_uuid: u128 },
    PlaySpawnPlayer { uuid: u128 },
    PlayBossBar { uuid: u128 },
    PlayServerChatMessage { sender: u128 },
    PlayPlayerInfo { uuids: Vec<u128> },
    PlayEntityProperties { modifier_uuids: Vec<Vec<u128>> },
    PlayEntityMetadata { field_uuids: Vec<Option<u128>> },
    PlaySpectate { target: u128 },
    PlayDisconnect,
    Other,
}

/// The mathematical view of a `PacketView`.
pub enum PacketModel {
    Handshake { next_state: NextState },
    LoginEncryptionRequest { server_id: Seq<char>, public_key: Seq<u8>, verify_token: Seq<u8> },
    LoginSetCompression { threshold: i32 },
    LoginSuccess { uuid: u128, username: Seq<char> },
    PlaySpawnEntity { object_uuid: u128 },
    PlaySpawnLivingEntity { entity_uuid: u128 },
    PlaySpawnPainting { entity_uuid: u128 },
    PlaySpawnPlayer { uuid: u128 },
    PlayBossBar { uuid: u128 },
    PlayServerChatMessage { sender: u128 },
    PlayPlayerInfo { uuids: Seq<u128> },
    PlayEntityProperties { modifier_uuids: Seq<Seq<u128>> },
    PlayEntityMetadata { field_uuids: Seq<Option<u128>> },
    PlaySpectate { target: u128 },
    PlayDisconnect,
    Other,
}

/// The view of a list of lists of UUIDs.
pub open spec fn nested_view(v: Seq<Vec<u128>>) -> Seq<Seq<u128>> {
    v.map_values(|inner: Vec<u128>| inner@)
}

impl View for PacketView {
    type V = PacketModel;

    open spec fn view(&self) -> PacketModel {
        match self {
            PacketView::Handshake { next_state } => PacketModel::Handshake { next_state: *next_state },
            PacketView::LoginEncryptionRequest { server_id, public_key, verify_token } =>
                PacketModel::LoginEncryptionRequest {
                    server_id: server_id@,
                    public_key: public_key@,
                    verify_token: verify_token@,
                },
            PacketView::LoginSetCompression { threshold } =>
                PacketModel::LoginSetCompression { threshold: *threshold },
            PacketView::LoginSuccess { uuid, username } =>
                PacketModel::LoginSuccess { uuid: *uuid, username: username@ },
            PacketView::PlaySpawnEntity { object_uuid } =>
                PacketModel::PlaySpawnEntity { object_uuid: *object_uuid },
            PacketView::PlaySpawnLivingEntity { entity_uuid } =>
                PacketModel::PlaySpawnLivingEntity { entity_uuid: *entity_uuid },
            PacketView::PlaySpawnPainting { entity_uuid } =>
                PacketModel::PlaySpawnPainting { entity_uuid: *entity_uuid },
            PacketView::PlaySpawnPlayer { uuid } => PacketModel::PlaySpawnPlayer { uuid: *uuid },
            PacketView::PlayBossBar { uuid } => PacketModel::PlayBossBar { uuid: *uuid },
            PacketView::PlayServerChatMessage { sender } =>
                PacketModel::PlayServerChatMessage { sender: *sender },
            PacketView::PlayPlayerInfo { uuids } => PacketModel::PlayPlayerInfo { uuids: uuids@ },
            PacketView::PlayEntityProperties { modifier_uuids } =>
                PacketModel::PlayEntityProperties { modifier_uuids: nested_view(modifier_uuids@) },
            PacketView::PlayEntityMetadata { field_uuids } =>
                PacketModel::PlayEntityMetadata { field_uuids: field_uuids@ },
            PacketView::PlaySpectate { target } => PacketModel::PlaySpectate { target: *target },
            PacketView::PlayDisconnect => PacketModel::PlayDisconnect,
            PacketView::Other => PacketModel::Other,
        }
    }
}

/// What an attempt to read the next packet from a connection gave: a read
/// error, no packet at all, or a packet.
#[derive(Clone, Debug, PartialEq, Eq)]
pub enum ReadOutcome {
    Failed,
    Empty,
    Packet(PacketView),
}

/// The mathematical view of a `ReadOutcome`.
pub enum ReadOutcomeModel {
    Failed,
    Empty,
    Packet(PacketModel),
}

impl View for ReadOutcome {
    type V = ReadOutcomeModel;

    open spec fn view(&self) -> ReadOutcomeModel {
        match self {
            ReadOutcome::Failed => ReadOutcomeModel::Failed,
            ReadOutcome::Empty => ReadOutcomeModel::Empty,
            ReadOutcome::Packet(p) => ReadOutcomeModel::Packet(p@),
        }
    }
}

/// The protocol version that this library speaks.
pub const PROTOCOL_VERSION: i32 = 753;

/// A packet that the library asks to be written to a connection.
#[derive(Clone, Debug, PartialEq, Eq)]
pub enum OutPacket {
    Handshake { version: i32, server_address: String, server_port: u16, next_state: NextState },
    StatusRequest,
    LoginStart { name: String },
    LoginEncryptionResponse { shared_secret: Vec<u8>, verify_token: Vec<u8> },
}

/// The mathematical view of an `OutPacket`.
pub enum OutPacketModel {
    Handshake { version: i32, server_address: Seq<char>, server_port: u16, next_state: NextState },
    StatusRequest,
    LoginStart { name: Seq<char> },
    LoginEncryptionResponse { shared_secret: Seq<u8>, verify_token: Seq<u8> },
}

impl View for OutPacket {
    type V = OutPacketModel;

    open spec fn view(&self) -> OutPacketModel {
        match self {
            OutPacket::Handshake { version, server_address, server_port, next_state } =>
                OutPacketModel::Handshake {
                    version: *version,
                    server_address: server_address@,
                    server_port: *server_port,
                    next_state: *next_state,
                },
            OutPacket::StatusRequest => OutPacketModel::StatusRequest,
            OutPacket::LoginStart { name } => OutPacketModel::LoginStart { name: name@ },
            OutPacket::LoginEncryptionResponse { shared_secret, verify_token } =>
                OutPacketModel::LoginEncryptionResponse {
                    shared_secret: shared_secret@,
                    verify_token: verify_token@,
                },
        }
    }
}

} // verus!
