//! The proxy's packet rewriting: a player joins the proxy with a real UUID,
//! while the proxy joins the endpoint server with a generated (fake) one.
//! Packets coming from the endpoint carry the fake UUID and are rewritten to
//! the real one; packets going to the endpoint carry the real UUID and are
//! rewritten to the fake one.

use vstd::prelude::*;
use crate::packet::{PacketModel, PacketView, nested_view};
use crate::event::{Event, NameUUID};

verus! {

/// `u`, with `from` replaced by `to`.
pub open spec fn swap_uuid(u: u128, from: u128, to: u128) -> u128 {
    if u == from { to } else { u }
}

/// Every UUID of `s`, with `from` replaced by `to`.
pub open spec fn swap_all(s: Seq<u128>, from: u128, to: u128) -> Seq<u128> {
    s.map_values(|u: u128| swap_uuid(u, from, to))
}

/// Every UUID of every list of `s`, with `from` replaced by `to`.
pub open spec fn swap_nested(s: Seq<Seq<u128>>, from: u128, to: u128) -> Seq<Seq<u128>> {
    s.map_values(|inner: Seq<u128>| swap_all(inner, from, to))
}

/// Every present UUID of `s`, with `from` replaced by `to`.
pub open spec fn swap_present(s: Seq<Option<u128>>, from: u128, to: u128) -> Seq<Option<u128>> {
    s.map_values(
        |o: Option<u128>|
            match o {
                Some(u) => Some(swap_uuid(u, from, to)),
                None => None,
            },
    )
}

/// The packet that the proxy forwards in place of `p`: in the packets that the
/// endpoint server sends, the fake UUID becomes the real one; in a spectate
/// request from the player, the real UUID becomes the fake one; every other
/// packet, and every other field, stays as it is.
pub open spec fn converted(p: PacketModel, real_uuid: u128, fake_uuid: u128) -> PacketModel {
    match p {
        PacketModel::LoginSuccess { uuid, username } =>
            PacketModel::LoginSuccess { uuid: swap_uuid(uuid, fake_uuid, real_uuid), username },
        PacketModel::PlaySpawnEntity { object_uuid } =>
            PacketModel::PlaySpawnEntity { object_uuid: swap_uuid(object_uuid, fake_uuid, real_uuid) },
        PacketModel::PlaySpawnLivingEntity { entity_uuid } =>
            PacketModel::PlaySpawnLivingEntity { entity_uuid: swap_uuid(entity_uuid, fake_uuid, real_uuid) },
        PacketModel::PlaySpawnPainting { entity_uuid } =>
            PacketModel::PlaySpawnPainting { entity_uuid: swap_uuid(entity_uuid, fake_uuid, real_uuid) },
        PacketModel::PlaySpawnPlayer { uuid } =>
            PacketModel::PlaySpawnPlayer { uuid: swap_uuid(uuid, fake_uuid, real_uuid) },
        PacketModel::PlayBossBar { uuid } =>
            PacketModel::PlayBossBar { uuid: swap_uuid(uuid, fake_uuid, real_uuid) },
        PacketModel::PlayServerChatMessage { sender } =>
            PacketModel::PlayServerChatMessage { sender: swap_uuid(sender, fake_uuid, real_uuid) },
        PacketModel::PlayPlayerInfo { uuids } =>
            PacketModel::PlayPlayerInfo { uuids: swap_all(uuids, fake_uuid, real_uuid) },
        PacketModel::PlayEntityProperties { modifier_uuids } =>
            PacketModel::PlayEntityProperties {
                modifier_uuids: swap_nested(modifier_uuids, fake_uuid, real_uuid),
            },
        PacketModel::PlayEntityMetadata { field_uuids } =>
            PacketModel::PlayEntityMetadata { field_uuids: swap_present(field_uuids, fake_uuid, real_uuid) },
        PacketModel::PlaySpectate { target } =>
            PacketModel::PlaySpectate { target: swap_uuid(target, real_uuid, fake_uuid) },
        _ => p,
    }
}

/// Whether `p` is one of the packets that the endpoint server sends and that
/// name the player by UUID.
pub open spec fn names_player_from_endpoint(p: PacketModel) -> bool {
    match p {
        PacketModel::LoginSuccess { .. } | PacketModel::PlaySpawnEntity { .. }
        | PacketModel::PlaySpawnLivingEntity { .. } | PacketModel::PlaySpawnPainting { .. }
        | PacketModel::PlaySpawnPlayer { .. } | PacketModel::PlayBossBar { .. }
        | PacketModel::PlayServerChatMessage { .. } | PacketModel::PlayPlayerInfo { .. }
        | PacketModel::PlayEntityProperties { .. } | PacketModel::PlayEntityMetadata { .. } => true,
        _ => false,
    }
}

/// Whether `p` is one of the packets whose UUIDs the proxy may rewrite.
pub open spec fn carries_player_uuid(p: PacketModel) -> bool {
    names_player_from_endpoint(p) || p is PlaySpectate
}

/// Whether some list of `s` holds `u`.
pub open spec fn nested_contains(s: Seq<Seq<u128>>, u: u128) -> bool {
    exists|i: int| 0 <= i < s.len() && #[trigger] s[i].contains(u)
}

proof fn lemma_swap_nested_keeps(s: Seq<Seq<u128>>, from: u128, to: u128, u: u128)
    requires
        u != from,
        u != to,
    ensures
        nested_contains(swap_nested(s, from, to), u) == nested_contains(s, u),
{
    let once = swap_nested(s, from, to);
    if nested_contains(s, u) {
        let i = choose|i: int| 0 <= i < s.len() && #[trigger] s[i].contains(u);
        let j = choose|j: int| 0 <= j < s[i].len() && s[i][j] == u;
        assert(once[i][j] == u);
        assert(once[i].contains(u));
    }
    if nested_contains(once, u) {
        let i = choose|i: int| 0 <= i < once.len() && #[trigger] once[i].contains(u);
        let j = choose|j: int| 0 <= j < once[i].len() && once[i][j] == u;
        assert(s[i][j] == u);
        assert(s[i].contains(u));
    }
}

/// Whether some UUID field of `p` holds `u`.
pub open spec fn mentions(p: PacketModel, u: u128) -> bool {
    match p {
        PacketModel::LoginSuccess { uuid, .. } => uuid == u,
        PacketModel::PlaySpawnEntity { object_uuid } => object_uuid == u,
        PacketModel::PlaySpawnLivingEntity { entity_uuid } => entity_uuid == u,
        PacketModel::PlaySpawnPainting { entity_uuid } => entity_uuid == u,
        PacketModel::PlaySpawnPlayer { uuid } => uuid == u,
        PacketModel::PlayBossBar { uuid } => uuid == u,
        PacketModel::PlayServerChatMessage { sender } => sender == u,
        PacketModel::PlayPlayerInfo { uuids } => uuids.contains(u),
        PacketModel::PlayEntityProperties { modifier_uuids } => nested_contains(modifier_uuids, u),
        PacketModel::PlayEntityMetadata { field_uuids } => field_uuids.contains(Some(u)),
        PacketModel::PlaySpectate { target } => target == u,
        _ => false,
    }
}

/// When the player's real and fake UUIDs are the same, the proxy forwards every
/// packet unchanged.
pub proof fn lemma_convert_same_uuid_is_identity(p: PacketModel, u: u128)
    ensures
        converted(p, u, u) == p,
{
    match p {
        PacketModel::PlayPlayerInfo { uuids } => {
            assert(swap_all(uuids, u, u) =~= uuids);
        },
        PacketModel::PlayEntityProperties { modifier_uuids } => {
            assert forall|i: int| 0 <= i < modifier_uuids.len() implies #[trigger] swap_nested(
                modifier_uuids,
                u,
                u,
            )[i] == modifier_uuids[i] by {
                assert(swap_all(modifier_uuids[i], u, u) =~= modifier_uuids[i]);
            }
            assert(swap_nested(modifier_uuids, u, u) =~= modifier_uuids);
        },
        PacketModel::PlayEntityMetadata { field_uuids } => {
            assert(swap_present(field_uuids, u, u) =~= field_uuids);
        },
        _ => {},
    }
}

/// Packets that carry no player UUID are forwarded unchanged.
pub proof fn lemma_convert_leaves_other_packets(p: PacketModel, real_uuid: u128, fake_uuid: u128)
    requires
        !carries_player_uuid(p),
    ensures
        converted(p, real_uuid, fake_uuid) == p,
{
}

/// Rewriting a packet a second time changes nothing: the rewrite is idempotent.
pub proof fn lemma_convert_idempotent(p: PacketModel, real_uuid: u128, fake_uuid: u128)
    ensures
        converted(converted(p, real_uuid, fake_uuid), real_uuid, fake_uuid) == converted(
            p,
            real_uuid,
            fake_uuid,
        ),
{
    match p {
        PacketModel::PlayPlayerInfo { uuids } => {
            let once = swap_all(uuids, fake_uuid, real_uuid);
            assert(swap_all(once, fake_uuid, real_uuid) =~= once);
        },
        PacketModel::PlayEntityProperties { modifier_uuids } => {
            let once = swap_nested(modifier_uuids, fake_uuid, real_uuid);
            let twice = swap_nested(once, fake_uuid, real_uuid);
            assert forall|i: int| 0 <= i < once.len() implies #[trigger] twice[i] == once[i] by {
                assert(swap_all(once[i], fake_uuid, real_uuid) =~= once[i]);
            }
            assert(twice =~= once);
        },
        PacketModel::PlayEntityMetadata { field_uuids } => {
            let once = swap_present(field_uuids, fake_uuid, real_uuid);
            assert(swap_present(once, fake_uuid, real_uuid) =~= once);
        },
        _ => {},
    }
}

/// After the rewrite, no packet from the endpoint server mentions the fake UUID
/// any more (each mention became the real UUID), and a spectate request from the
/// player no longer names the player's real UUID (it became the fake one).
pub proof fn lemma_convert_hides_the_other_uuid(p: PacketModel, real_uuid: u128, fake_uuid: u128)
    requires
        real_uuid != fake_uuid,
    ensures
        names_player_from_endpoint(p) ==> !mentions(converted(p, real_uuid, fake_uuid), fake_uuid),
        p is PlaySpectate ==> !mentions(converted(p, real_uuid, fake_uuid), real_uuid),
{
    match p {
        PacketModel::PlayPlayerInfo { uuids } => {
            let once = swap_all(uuids, fake_uuid, real_uuid);
            assert forall|i: int| 0 <= i < once.len() implies once[i] != fake_uuid by {}
        },
        PacketModel::PlayEntityProperties { modifier_uuids } => {
            let once = swap_nested(modifier_uuids, fake_uuid, real_uuid);
            assert forall|i: int| 0 <= i < once.len() implies !(#[trigger] once[i]).contains(
                fake_uuid,
            ) by {
                assert forall|j: int| 0 <= j < once[i].len() implies once[i][j] != fake_uuid by {}
            }
        },
        PacketModel::PlayEntityMetadata { field_uuids } => {
            let once = swap_present(field_uuids, fake_uuid, real_uuid);
            assert forall|i: int| 0 <= i < once.len() implies once[i] != Some(fake_uuid) by {}
        },
        _ => {},
    }
}

/// Every mention of a UUID other than the real and the fake one survives the
/// rewrite: the proxy never touches the UUIDs of other players.
pub proof fn lemma_convert_keeps_other_uuids(
    p: PacketModel,
    real_uuid: u128,
    fake_uuid: u128,
    u: u128,
)
    requires
        u != real_uuid,
        u != fake_uuid,
    ensures
        mentions(converted(p, real_uuid, fake_uuid), u) == mentions(p, u),
{
    match p {
        PacketModel::PlayPlayerInfo { uuids } => {
            let once = swap_all(uuids, fake_uuid, real_uuid);
            if uuids.contains(u) {
                let i = choose|i: int| 0 <= i < uuids.len() && uuids[i] == u;
                assert(once[i] == u);
                assert(once.contains(u));
            }
            if once.contains(u) {
                let i = choose|i: int| 0 <= i < once.len() && once[i] == u;
                assert(uuids[i] == u);
                assert(uuids.contains(u));
            }
        },
        PacketModel::PlayEntityProperties { modifier_uuids } => {
            lemma_swap_nested_keeps(modifier_uuids, fake_uuid, real_uuid, u);
        },
        PacketModel::PlayEntityMetadata { field_uuids } => {
            let once = swap_present(field_uuids, fake_uuid, real_uuid);
            if field_uuids.contains(Some(u)) {
                let i = choose|i: int| 0 <= i < field_uuids.len() && field_uuids[i] == Some(u);
                assert(once[i] == Some(u));
                assert(once.contains(Some(u)));
            }
            if once.contains(Some(u)) {
                let i = choose|i: int| 0 <= i < once.len() && once[i] == Some(u);
                assert(field_uuids[i] == Some(u));
                assert(field_uuids.contains(Some(u)));
            }
        },
        _ => {},
    }
}

fn swap_one(u: u128, from: u128, to: u128) -> (r: u128)
    ensures
        r == swap_uuid(u, from, to),
{
    if u == from {
        to
    } else {
        u
    }
}

fn swap_in_list(list: &mut Vec<u128>, from: u128, to: u128)
    ensures
        final(list)@ == swap_all(old(list)@, from, to),
{
    let ghost original = list@;
    let n = list.len();
    let mut i: usize = 0;
    while i < n
        invariant
            n == original.len(),
            list@.len() == n,
            i <= n,
            forall|j: int| 0 <= j < i ==> list@[j] == swap_uuid(original[j], from, to),
            forall|j: int| i <= j < n ==> list@[j] == original[j],
        decreases n - i,
    {
        let u = list[i];
        list.set(i, swap_one(u, from, to));
        i = i + 1;
    }
    assert(list@ =~= swap_all(original, from, to));
}

fn swap_in_lists(lists: &mut Vec<Vec<u128>>, from: u128, to: u128)
    ensures
        nested_view(final(lists)@) == swap_nested(nested_view(old(lists)@), from, to),
{
    let ghost original = nested_view(lists@);
    let n = lists.len();
    let mut out: Vec<Vec<u128>> = Vec::new();
    let mut i: usize = 0;
    while i < n
        invariant
            n == lists@.len(),
            original == nested_view(lists@),
            i <= n,
            out@.len() == i,
            forall|j: int| 0 <= j < i ==> (#[trigger] out@[j])@ == swap_all(original[j], from, to),
        decreases n - i,
    {
        let mut inner = lists[i].clone();
        assert(inner@ == original[i as int]);
        swap_in_list(&mut inner, from, to);
        out.push(inner);
        i = i + 1;
    }
    *lists = out;
    assert(nested_view(lists@) =~= swap_nested(original, from, to));
}

fn swap_in_fields(fields: &mut Vec<Option<u128>>, from: u128, to: u128)
    ensures
        final(fields)@ == swap_present(old(fields)@, from, to),
{
    let ghost original = fields@;
    let n = fields.len();
    let mut i: usize = 0;
    while i < n
        invariant
            n == original.len(),
            fields@.len() == n,
            i <= n,
            forall|j: int|
                0 <= j < i ==> fields@[j] == (match original[j] {
                    Some(u) => Some(swap_uuid(u, from, to)),
                    None => None,
                }),
            forall|j: int| i <= j < n ==> fields@[j] == original[j],
        decreases n - i,
    {
        match fields[i] {
            Some(u) => {
                fields.set(i, Some(swap_one(u, from, to)));
            },
            None => {},
        }
        i = i + 1;
    }
    assert(fields@ =~= swap_present(original, from, to));
}

/// Rewrites the player UUIDs of a packet that the proxy forwards between a
/// player (known by `real_uuid`) and the endpoint server (which knows the
/// player by `fake_uuid`).
pub fn convert_packet_player_uuid(packet: PacketView, real_uuid: u128, fake_uuid: u128) -> (r:
    PacketView)
    ensures
        r@ == converted(packet@, real_uuid, fake_uuid),
{
    match packet {
        PacketView::LoginSuccess { uuid, username } => PacketView::LoginSuccess {
            uuid: swap_one(uuid, fake_uuid, real_uuid),
            username,
        },
        PacketView::PlaySpawnEntity { object_uuid } => PacketView::PlaySpawnEntity {
            object_uuid: swap_one(object_uuid, fake_uuid, real_uuid),
        },
        PacketView::PlaySpawnLivingEntity { entity_uuid } => PacketView::PlaySpawnLivingEntity {
            entity_uuid: swap_one(entity_uuid, fake_uuid, real_uuid),
        },
        PacketView::PlaySpawnPainting { entity_uuid } => PacketView::PlaySpawnPainting {
            entity_uuid: swap_one(entity_uuid, fake_uuid, real_uuid),
        },
        PacketView::PlaySpawnPlayer { uuid } => PacketView::PlaySpawnPlayer {
            uuid: swap_one(uuid, fake_uuid, real_uuid),
        },
        PacketView::PlayBossBar { uuid } => PacketView::PlayBossBar {
            uuid: swap_one(uuid, fake_uuid, real_uuid),
        },
        PacketView::PlayServerChatMessage { sender } => PacketView::PlayServerChatMessage {
            sender: swap_one(sender, fake_uuid, real_uuid),
        },
        PacketView::PlayPlayerInfo { uuids } => {
            let mut uuids = uuids;
            swap_in_list(&mut uuids, fake_uuid, real_uuid);
            PacketView::PlayPlayerInfo { uuids }
        },
        PacketView::PlayEntityProperties { modifier_uuids } => {
            let mut modifier_uuids = modifier_uuids;
            swap_in_lists(&mut modifier_uuids, fake_uuid, real_uuid);
            PacketView::PlayEntityProperties { modifier_uuids }
        },
        PacketView::PlayEntityMetadata { field_uuids } => {
            let mut field_uuids = field_uuids;
            swap_in_fields(&mut field_uuids, fake_uuid, real_uuid);
            PacketView::PlayEntityMetadata { field_uuids }
        },
        PacketView::PlaySpectate { target } => PacketView::PlaySpectate {
            target: swap_one(target, real_uuid, fake_uuid),
        },
        other => other,
    }
}

/// What the proxy does with an event of its server.
#[derive(Debug)]
pub enum ProxyAction {
    /// Nothing; keep listening.
    Ignore,
    /// Connect a client for this player to the endpoint server and forward its
    /// packets both ways.
    JoinEndpoint(NameUUID),
}

/// The proxy's answer to an event of its server, or to a failed receive
/// (`None`): a joining player gets a client of its own on the endpoint server;
/// a failed receive is ignored.
pub fn on_server_event(event: Option<Event>) -> (a: ProxyAction)
    ensures
        event matches Some(Event::PlayerJoin(id)) ==> a == ProxyAction::JoinEndpoint(id),
        event is None ==> a == ProxyAction::Ignore,
{
    match event {
        Some(Event::PlayerJoin(id)) => ProxyAction::JoinEndpoint(id),
        None => ProxyAction::Ignore,
    }
}

/// What a forwarding loop reports to its step.
#[derive(Clone, Debug, PartialEq, Eq)]
pub enum ForwardEvent {
    /// A packet came from the subscription.
    Received(PacketView),
    /// Receiving from the subscription failed (it closed, or the loop lagged).
    ReceiveFailed,
    /// Whether sending the forwarded packet succeeded.
    Sent(bool),
    /// The player was kicked.
    Kicked,
}

/// What a forwarding loop does next.
#[derive(Clone, Debug, PartialEq, Eq)]
pub enum ForwardAction {
    /// Wait for the next packet.
    Receive,
    /// Send this packet on.
    Send(PacketView),
    /// Kick the player with the reason of the disconnect packet just received.
    Kick,
    /// End the loop, closing the player's connection.
    Close,
    /// End the loop.
    Stop,
}

/// The mathematical view of a `ForwardAction`.
pub enum ForwardActionModel {
    Receive,
    Send(PacketModel),
    Kick,
    Close,
    Stop,
}

impl View for ForwardAction {
    type V = ForwardActionModel;

    open spec fn view(&self) -> ForwardActionModel {
        match self {
            ForwardAction::Receive => ForwardActionModel::Receive,
            ForwardAction::Send(p) => ForwardActionModel::Send(p@),
            ForwardAction::Kick => ForwardActionModel::Kick,
            ForwardAction::Close => ForwardActionModel::Close,
            ForwardAction::Stop => ForwardActionModel::Stop,
        }
    }
}

/// One step of the loop that forwards the player's packets to the endpoint
/// server: every packet received is rewritten and sent on; a failed receive or
/// a failed send ends the loop.
pub fn client_to_server_step(event: ForwardEvent, real_uuid: u128, fake_uuid: u128) -> (a:
    ForwardAction)
    requires
        !(event is Kicked),
    ensures
        event matches ForwardEvent::Received(p) ==> a@ == ForwardActionModel::Send(
            converted(p@, real_uuid, fake_uuid),
        ),
        event is ReceiveFailed ==> a == ForwardAction::Stop,
        event == ForwardEvent::Sent(true) ==> a == ForwardAction::Receive,
        event == ForwardEvent::Sent(false) ==> a == ForwardAction::Stop,
{
    match event {
        ForwardEvent::Received(p) => ForwardAction::Send(
            convert_packet_player_uuid(p, real_uuid, fake_uuid),
        ),
        ForwardEvent::Sent(true) => ForwardAction::Receive,
        _ => ForwardAction::Stop,
    }
}

/// One step of the loop that forwards the endpoint server's packets to the
/// player: every packet received is rewritten; a disconnect is not forwarded
/// but kicks the player; any other packet is sent on. A failed receive, a failed
/// send or a kick ends the loop and closes the player's connection.
pub fn server_to_client_step(event: ForwardEvent, real_uuid: u128, fake_uuid: u128) -> (a:
    ForwardAction)
    ensures
        event matches ForwardEvent::Received(p) ==> (if converted(
            p@,
            real_uuid,
            fake_uuid,
        ) is PlayDisconnect {
            a == ForwardAction::Kick
        } else {
            a@ == ForwardActionModel::Send(converted(p@, real_uuid, fake_uuid))
        }),
        event is ReceiveFailed ==> a == ForwardAction::Close,
        event == ForwardEvent::Sent(true) ==> a == ForwardAction::Receive,
        event == ForwardEvent::Sent(false) ==> a == ForwardAction::Close,
        event is Kicked ==> a == ForwardAction::Close,
{
    match event {
        ForwardEvent::Received(p) => {
            let q = convert_packet_player_uuid(p, real_uuid, fake_uuid);
            match q {
                PacketView::PlayDisconnect => ForwardAction::Kick,
                _ => ForwardAction::Send(q),
            }
        },
        ForwardEvent::Sent(true) => ForwardAction::Receive,
        _ => ForwardAction::Close,
    }
}

} // verus!
