use rust_mc::packet::{NextState, PacketView};
use rust_mc::proxy::{
    client_to_server_step, convert_packet_player_uuid, on_server_event, server_to_client_step,
    ForwardAction, ForwardEvent, ProxyAction,
};
use rust_mc::event::Event;

const REAL: u128 = 0x1111;
const FAKE: u128 = 0x2222;
const OTHER: u128 = 0x3333;

fn convert(p: PacketView) -> PacketView {
    convert_packet_player_uuid(p, REAL, FAKE)
}

#[test]
fn login_success_fake_uuid_becomes_real() {
    let p = PacketView::LoginSuccess { uuid: FAKE, username: "steve".to_string() };
    assert_eq!(convert(p), PacketView::LoginSuccess { uuid: REAL, username: "steve".to_string() });
}

#[test]
fn login_success_other_uuid_stays() {
    let p = PacketView::LoginSuccess { uuid: OTHER, username: "alex".to_string() };
    assert_eq!(convert(p.clone()), p);
}

#[test]
fn single_uuid_packets_from_endpoint() {
    assert_eq!(
        convert(PacketView::PlaySpawnEntity { object_uuid: FAKE }),
        PacketView::PlaySpawnEntity { object_uuid: REAL }
    );
    assert_eq!(
        convert(PacketView::PlaySpawnLivingEntity { entity_uuid: FAKE }),
        PacketView::PlaySpawnLivingEntity { entity_uuid: REAL }
    );
    assert_eq!(
        convert(PacketView::PlaySpawnPainting { entity_uuid: FAKE }),
        PacketView::PlaySpawnPainting { entity_uuid: REAL }
    );
    assert_eq!(
        convert(PacketView::PlaySpawnPlayer { uuid: FAKE }),
        PacketView::PlaySpawnPlayer { uuid: REAL }
    );
    assert_eq!(convert(PacketView::PlayBossBar { uuid: FAKE }), PacketView::PlayBossBar { uuid: REAL });
    assert_eq!(
        convert(PacketView::PlayServerChatMessage { sender: FAKE }),
        PacketView::PlayServerChatMessage { sender: REAL }
    );
}

#[test]
fn real_uuid_in_endpoint_packet_is_not_touched() {
    assert_eq!(
        convert(PacketView::PlaySpawnPlayer { uuid: REAL }),
        PacketView::PlaySpawnPlayer { uuid: REAL }
    );
}

#[test]
fn player_info_list_is_rewritten_entry_by_entry() {
    let p = PacketView::PlayPlayerInfo { uuids: vec![OTHER, FAKE, REAL, FAKE] };
    assert_eq!(convert(p), PacketView::PlayPlayerInfo { uuids: vec![OTHER, REAL, REAL, REAL] });
}

#[test]
fn entity_properties_modifiers_are_rewritten() {
    let p = PacketView::PlayEntityProperties {
        modifier_uuids: vec![vec![FAKE, OTHER], vec![], vec![FAKE]],
    };
    assert_eq!(
        convert(p),
        PacketView::PlayEntityProperties { modifier_uuids: vec![vec![REAL, OTHER], vec![], vec![REAL]] }
    );
}

#[test]
fn entity_metadata_present_uuids_are_rewritten() {
    let p = PacketView::PlayEntityMetadata { field_uuids: vec![None, Some(FAKE), Some(OTHER)] };
    assert_eq!(
        convert(p),
        PacketView::PlayEntityMetadata { field_uuids: vec![None, Some(REAL), Some(OTHER)] }
    );
}

#[test]
fn spectate_real_uuid_becomes_fake() {
    assert_eq!(convert(PacketView::PlaySpectate { target: REAL }), PacketView::PlaySpectate { target: FAKE });
    assert_eq!(convert(PacketView::PlaySpectate { target: FAKE }), PacketView::PlaySpectate { target: FAKE });
}

#[test]
fn packets_without_player_uuid_are_unchanged() {
    for p in [
        PacketView::Other,
        PacketView::PlayDisconnect,
        PacketView::Handshake { next_state: NextState::Login },
        PacketView::LoginSetCompression { threshold: 256 },
    ] {
        assert_eq!(convert(p.clone()), p);
    }
}

#[test]
fn rewrite_with_equal_uuids_is_identity() {
    let p = PacketView::PlayPlayerInfo { uuids: vec![REAL, OTHER] };
    assert_eq!(convert_packet_player_uuid(p.clone(), REAL, REAL), p);
}

#[test]
fn rewrite_is_idempotent() {
    let p = PacketView::PlayEntityMetadata { field_uuids: vec![Some(FAKE), Some(REAL), None] };
    let once = convert(p);
    assert_eq!(convert(once.clone()), once);
}

#[test]
fn server_event_join_starts_a_session() {
    let a = on_server_event(Some(Event::PlayerJoin(("steve".to_string(), REAL))));
    assert!(matches!(a, ProxyAction::JoinEndpoint((ref n, u)) if n == "steve" && u == REAL));
    assert!(matches!(on_server_event(None), ProxyAction::Ignore));
}

#[test]
fn client_to_server_loop_steps() {
    assert_eq!(
        client_to_server_step(ForwardEvent::Received(PacketView::PlaySpectate { target: REAL }), REAL, FAKE),
        ForwardAction::Send(PacketView::PlaySpectate { target: FAKE })
    );
    assert_eq!(client_to_server_step(ForwardEvent::Sent(true), REAL, FAKE), ForwardAction::Receive);
    assert_eq!(client_to_server_step(ForwardEvent::Sent(false), REAL, FAKE), ForwardAction::Stop);
    assert_eq!(client_to_server_step(ForwardEvent::ReceiveFailed, REAL, FAKE), ForwardAction::Stop);
}

#[test]
fn server_to_client_loop_steps() {
    assert_eq!(
        server_to_client_step(ForwardEvent::Received(PacketView::PlayBossBar { uuid: FAKE }), REAL, FAKE),
        ForwardAction::Send(PacketView::PlayBossBar { uuid: REAL })
    );
    assert_eq!(
        server_to_client_step(ForwardEvent::Received(PacketView::PlayDisconnect), REAL, FAKE),
        ForwardAction::Kick
    );
    assert_eq!(server_to_client_step(ForwardEvent::Kicked, REAL, FAKE), ForwardAction::Close);
    assert_eq!(server_to_client_step(ForwardEvent::Sent(true), REAL, FAKE), ForwardAction::Receive);
    assert_eq!(server_to_client_step(ForwardEvent::Sent(false), REAL, FAKE), ForwardAction::Close);
    assert_eq!(server_to_client_step(ForwardEvent::ReceiveFailed, REAL, FAKE), ForwardAction::Close);
}
