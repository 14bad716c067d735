use rust_mc::client::{
    client_loop_step, read_packet, ClientLoopAction, ClientRunner, ControlSignal, LoginAction,
    LoginError, LoginEvent, LoginStep, Profile,
};
use openssl::pkey::Private;
use openssl::rsa::Rsa;
use rust_mc::crypto::CryptoError;
use rust_mc::packet::{OutPacket, PacketView, ProtocolState, ReadOutcome};

fn profile(offline: bool) -> Profile {
    Profile { name: "rust_mc".to_string(), id: 7, offline }
}

fn connected_runner(offline: bool) -> ClientRunner {
    let mut c = ClientRunner::new(profile(offline));
    c.attach_server();
    c
}

fn read(p: PacketView) -> LoginEvent {
    LoginEvent::Read(ReadOutcome::Packet(p))
}

#[test]
fn offline_login_adopts_server_identity() {
    let mut c = connected_runner(true);
    assert_eq!(c.step(LoginEvent::Begin), LoginAction::ReadPacket);
    assert_eq!(
        c.step(read(PacketView::LoginSuccess { uuid: 99, username: "Server".to_string() })),
        LoginAction::SetState(ProtocolState::Play)
    );
    assert!(c.connected);
    assert_eq!(c.get_name_uuid(), ("Server".to_string(), 99));
    assert_eq!(c.step(LoginEvent::Acknowledged), LoginAction::Finish(Ok(())));
    assert_eq!(c.step, LoginStep::Done);
}

#[test]
fn online_login_keeps_profile() {
    let mut c = connected_runner(false);
    c.step(LoginEvent::Begin);
    c.step(read(PacketView::LoginSuccess { uuid: 99, username: "Server".to_string() }));
    assert_eq!(c.get_name_uuid(), ("rust_mc".to_string(), 7));
}

#[test]
fn compression_then_success() {
    let mut c = connected_runner(true);
    c.step(LoginEvent::Begin);
    assert_eq!(
        c.step(read(PacketView::LoginSetCompression { threshold: 256 })),
        LoginAction::SetCompressionThreshold(256)
    );
    assert_eq!(c.step(LoginEvent::Acknowledged), LoginAction::ReadPacket);
    assert_eq!(
        c.step(read(PacketView::LoginSuccess { uuid: 5, username: "a".to_string() })),
        LoginAction::SetState(ProtocolState::Play)
    );
}

#[test]
fn compression_then_unexpected_packet() {
    let mut c = connected_runner(true);
    c.step(LoginEvent::Begin);
    c.step(read(PacketView::LoginSetCompression { threshold: 64 }));
    c.step(LoginEvent::Acknowledged);
    assert_eq!(
        c.step(read(PacketView::LoginSetCompression { threshold: 64 })),
        LoginAction::Finish(Err(LoginError::UnexpectedPacket))
    );
}

fn server_key() -> (Rsa<Private>, Vec<u8>) {
    let key = Rsa::generate(1024).unwrap();
    let der = key.public_key_to_der().unwrap();
    (key, der)
}

/// The first 16 bytes of a ciphertext cannot be decrypted, so the test checks
/// what it can: they are 16 bytes that differ from the secret, and they are what
/// the login announces and writes.
#[test]
fn encrypted_login_sequence() {
    let (_key, der) = server_key();
    let mut c = connected_runner(false);
    c.step(LoginEvent::Begin);
    let a = c.step(read(PacketView::LoginEncryptionRequest {
        server_id: "sid".to_string(),
        public_key: der.clone(),
        verify_token: vec![4, 5],
    }));
    let secret = match a {
        LoginAction::Encrypt { public_key, shared_secret, verify_token } => {
            assert_eq!(public_key, der);
            assert_eq!(verify_token, vec![4, 5]);
            assert_eq!(shared_secret.len(), 16);
            shared_secret
        },
        other => panic!("unexpected {:?}", other),
    };
    let (encrypted_secret, encrypted_token) = match c.encrypt_secrets().unwrap() {
        LoginAction::JoinServer { server_id, shared_secret, public_key } => {
            assert_eq!(server_id, "sid");
            assert_eq!(public_key, der);
            assert_eq!(shared_secret.len(), 16);
            assert_ne!(shared_secret, secret);
            match &c.step {
                LoginStep::AwaitJoin { encrypted_secret, encrypted_token, shared_secret: held } => {
                    assert_eq!(encrypted_secret, &shared_secret);
                    assert_eq!(held, &secret);
                    assert_eq!(encrypted_token.len(), 16);
                    (encrypted_secret.clone(), encrypted_token.clone())
                },
                other => panic!("unexpected {:?}", other),
            }
        },
        other => panic!("unexpected {:?}", other),
    };
    assert_eq!(
        c.step(LoginEvent::Completed(true)),
        LoginAction::Write(OutPacket::LoginEncryptionResponse {
            shared_secret: encrypted_secret,
            verify_token: encrypted_token,
        })
    );
    assert_eq!(
        c.step(LoginEvent::Completed(true)),
        LoginAction::EnableEncryption { key: secret.clone(), iv: secret }
    );
    assert_eq!(c.step(LoginEvent::Completed(true)), LoginAction::ReadPacket);
    assert_eq!(
        c.step(read(PacketView::LoginSuccess { uuid: 1, username: "b".to_string() })),
        LoginAction::SetState(ProtocolState::Play)
    );
    assert_eq!(c.step(LoginEvent::Acknowledged), LoginAction::Finish(Ok(())));
}

#[test]
fn encrypt_secrets_with_bad_key_leaves_login_waiting() {
    let mut c = connected_runner(false);
    c.step(LoginEvent::Begin);
    c.step(read(PacketView::LoginEncryptionRequest {
        server_id: String::new(),
        public_key: vec![1, 2, 3],
        verify_token: vec![4],
    }));
    assert_eq!(c.encrypt_secrets(), Err(CryptoError::KeyRejected));
    assert!(matches!(c.step, LoginStep::AwaitSecrets { .. }));
}

#[test]
fn shared_secrets_are_drawn_afresh() {
    let draw = || {
        let mut c = connected_runner(false);
        c.step(LoginEvent::Begin);
        match c.step(read(PacketView::LoginEncryptionRequest {
            server_id: String::new(),
            public_key: vec![1],
            verify_token: vec![2],
        })) {
            LoginAction::Encrypt { shared_secret, .. } => shared_secret,
            other => panic!("unexpected {:?}", other),
        }
    };
    // Two draws of 128 random bits agree with negligible probability.
    assert_ne!(draw(), draw());
}

#[test]
fn encrypted_login_failures() {
    let (_key, der) = server_key();
    let request = || read(PacketView::LoginEncryptionRequest {
        server_id: String::new(),
        public_key: der.clone(),
        verify_token: vec![],
    });

    let mut c = connected_runner(true);
    c.step(LoginEvent::Begin);
    assert_eq!(c.step(request()), LoginAction::Finish(Err(LoginError::OfflineEncryption)));

    let mut c = connected_runner(false);
    c.step(LoginEvent::Begin);
    c.step(request());
    c.encrypt_secrets().unwrap();
    assert_eq!(c.step(LoginEvent::Completed(false)), LoginAction::Finish(Err(LoginError::JoinFailed)));

    let mut c = connected_runner(false);
    c.step(LoginEvent::Begin);
    c.step(request());
    c.encrypt_secrets().unwrap();
    c.step(LoginEvent::Completed(true));
    assert_eq!(c.step(LoginEvent::Completed(false)), LoginAction::Finish(Err(LoginError::WriteFailed)));

    let mut c = connected_runner(false);
    c.step(LoginEvent::Begin);
    c.step(request());
    c.encrypt_secrets().unwrap();
    c.step(LoginEvent::Completed(true));
    c.step(LoginEvent::Completed(true));
    assert_eq!(c.step(LoginEvent::Completed(false)), LoginAction::Finish(Err(LoginError::EncryptionFailed)));
}

#[test]
fn login_errors() {
    let mut c = ClientRunner::new(profile(true));
    assert_eq!(c.step(LoginEvent::Begin), LoginAction::Finish(Err(LoginError::NotConnectedToServer)));

    let mut c = connected_runner(true);
    c.connected = true;
    assert_eq!(c.step(LoginEvent::Begin), LoginAction::Finish(Err(LoginError::AlreadyConnected)));

    let mut c = connected_runner(true);
    c.step(LoginEvent::Begin);
    assert_eq!(c.step(LoginEvent::Read(ReadOutcome::Failed)), LoginAction::Finish(Err(LoginError::ReadFailed)));

    let mut c = connected_runner(true);
    c.step(LoginEvent::Begin);
    assert_eq!(c.step(LoginEvent::Read(ReadOutcome::Empty)), LoginAction::Finish(Err(LoginError::EmptyPacket)));

    let mut c = connected_runner(true);
    c.step(LoginEvent::Begin);
    assert_eq!(c.step(read(PacketView::Other)), LoginAction::Finish(Err(LoginError::UnexpectedPacket)));
}

#[test]
fn restarted_login_runs_again() {
    let mut c = connected_runner(true);
    c.step(LoginEvent::Begin);
    assert_eq!(c.step(LoginEvent::Read(ReadOutcome::Failed)), LoginAction::Finish(Err(LoginError::ReadFailed)));
    c.restart_login();
    assert_eq!(c.step, LoginStep::Idle);
    assert_eq!(c.step(LoginEvent::Begin), LoginAction::ReadPacket);
}

#[test]
fn read_packet_results() {
    assert_eq!(read_packet(None), Err(LoginError::NotConnectedToServer));
    assert_eq!(read_packet(Some(ReadOutcome::Failed)), Err(LoginError::ReadFailed));
    assert_eq!(read_packet(Some(ReadOutcome::Empty)), Err(LoginError::EmptyPacket));
    assert_eq!(read_packet(Some(ReadOutcome::Packet(PacketView::Other))), Ok(PacketView::Other));
}

#[test]
fn client_loop_decisions() {
    assert_eq!(client_loop_step(ControlSignal::Disconnected, true), ClientLoopAction::Stop);
    assert_eq!(client_loop_step(ControlSignal::Empty, false), ClientLoopAction::Stop);
    assert_eq!(client_loop_step(ControlSignal::Empty, true), ClientLoopAction::ReadPacket);
    assert_eq!(client_loop_step(ControlSignal::Message, true), ClientLoopAction::Continue);
}
