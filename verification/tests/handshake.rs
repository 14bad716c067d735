use rust_mc::handshake::{Handshake, HandshakeAction, HandshakeError, HandshakeEvent, HandshakeStep};
use rust_mc::packet::{
    NextState, OutPacket, PacketDirection, PacketView, ProtocolState, ReadOutcome, PROTOCOL_VERSION,
};

fn client(next: Option<NextState>, name: Option<&str>) -> Handshake {
    Handshake::new(
        PacketDirection::ServerBound,
        next,
        name.map(|n| n.to_string()),
        "127.0.0.1".to_string(),
        25565,
    )
}

fn server() -> Handshake {
    Handshake::new(PacketDirection::ClientBound, None, None, "0.0.0.0".to_string(), 25565)
}

#[test]
fn client_login_handshake_writes_handshake_then_login_start() {
    let mut h = client(Some(NextState::Login), Some("test_player"));
    assert_eq!(
        h.step(HandshakeEvent::Begin),
        HandshakeAction::Write(OutPacket::Handshake {
            version: PROTOCOL_VERSION,
            server_address: "127.0.0.1".to_string(),
            server_port: 25565,
            next_state: NextState::Login,
        })
    );
    assert_eq!(h.step(HandshakeEvent::Written(true)), HandshakeAction::SetState(ProtocolState::Login));
    assert_eq!(
        h.step(HandshakeEvent::StateSet),
        HandshakeAction::Write(OutPacket::LoginStart { name: "test_player".to_string() })
    );
    assert_eq!(h.step(HandshakeEvent::Written(true)), HandshakeAction::Finish(Ok(ProtocolState::Login)));
    assert_eq!(h.step, HandshakeStep::Done);
}

#[test]
fn client_status_handshake_writes_status_request() {
    let mut h = client(Some(NextState::Status), None);
    assert!(matches!(h.step(HandshakeEvent::Begin), HandshakeAction::Write(OutPacket::Handshake { .. })));
    assert_eq!(h.step(HandshakeEvent::Written(true)), HandshakeAction::SetState(ProtocolState::Status));
    assert_eq!(h.step(HandshakeEvent::StateSet), HandshakeAction::Write(OutPacket::StatusRequest));
    assert_eq!(h.step(HandshakeEvent::Written(true)), HandshakeAction::Finish(Ok(ProtocolState::Status)));
}

#[test]
fn client_without_next_state_fails_at_once() {
    let mut h = client(None, Some("x"));
    assert_eq!(
        h.step(HandshakeEvent::Begin),
        HandshakeAction::Finish(Err(HandshakeError::MissingNextState))
    );
}

#[test]
fn client_login_without_name_fails_after_entering_login() {
    let mut h = client(Some(NextState::Login), None);
    h.step(HandshakeEvent::Begin);
    assert_eq!(h.step(HandshakeEvent::Written(true)), HandshakeAction::SetState(ProtocolState::Login));
    assert_eq!(h.step(HandshakeEvent::StateSet), HandshakeAction::Finish(Err(HandshakeError::MissingName)));
}

#[test]
fn client_write_failure_is_forwarded() {
    let mut h = client(Some(NextState::Login), Some("x"));
    h.step(HandshakeEvent::Begin);
    assert_eq!(h.step(HandshakeEvent::Written(false)), HandshakeAction::Finish(Err(HandshakeError::WriteFailed)));
}

#[test]
fn server_handshake_enters_requested_state() {
    let mut h = server();
    assert_eq!(h.step(HandshakeEvent::Begin), HandshakeAction::ReadPacket);
    assert_eq!(
        h.step(HandshakeEvent::Read(ReadOutcome::Packet(PacketView::Handshake { next_state: NextState::Status }))),
        HandshakeAction::SetState(ProtocolState::Status)
    );
    assert_eq!(h.step(HandshakeEvent::StateSet), HandshakeAction::Finish(Ok(ProtocolState::Status)));

    let mut h = server();
    h.step(HandshakeEvent::Begin);
    assert_eq!(
        h.step(HandshakeEvent::Read(ReadOutcome::Packet(PacketView::Handshake { next_state: NextState::Login }))),
        HandshakeAction::SetState(ProtocolState::Login)
    );
    assert_eq!(h.step(HandshakeEvent::StateSet), HandshakeAction::Finish(Ok(ProtocolState::Login)));
}

#[test]
fn server_handshake_errors() {
    let mut h = server();
    h.step(HandshakeEvent::Begin);
    assert_eq!(
        h.step(HandshakeEvent::Read(ReadOutcome::Packet(PacketView::Other))),
        HandshakeAction::Finish(Err(HandshakeError::NotHandshake))
    );
    let mut h = server();
    h.step(HandshakeEvent::Begin);
    assert_eq!(h.step(HandshakeEvent::Read(ReadOutcome::Empty)), HandshakeAction::Finish(Err(HandshakeError::NotHandshake)));
    let mut h = server();
    h.step(HandshakeEvent::Begin);
    assert_eq!(h.step(HandshakeEvent::Read(ReadOutcome::Failed)), HandshakeAction::Finish(Err(HandshakeError::ReadFailed)));
}
