//! The client's side of a connection to a server: the login sequence that
//! follows the handshake, as a state machine, and the decisions of the
//! client's packet loop.
//!
//! The login reads the server's first login packet and answers it: an
//! encryption request starts the encrypted login (encrypt the shared secret
//! and the verify token with the server's key, announce the join, answer with
//! an encryption response and switch encryption on), a compression request sets
//! the compression threshold, and a login success ends the login. The caller
//! performs each action that the machine returns and reports what came of it.

use vstd::prelude::*;
use crate::crypto::{encrypt_for_server, is_encrypted_prefix, CryptoError, der_is_rsa_public_key};
use crate::packet::{
    OutPacket, OutPacketModel, PacketModel, PacketView, ProtocolState, ReadOutcome,
    ReadOutcomeModel,
};

verus! {

/// The length in bytes of the shared secret of an encrypted login.
pub const SHARED_SECRET_LEN: usize = 16;

/// The game profile that a client logs in with.
#[derive(Clone, Debug, PartialEq, Eq)]
pub struct Profile {
    /// The player's name.
    pub name: String,
    /// The player's UUID.
    pub id: u128,
    /// Whether the account is an offline one, whose identity the server assigns.
    pub offline: bool,
}

/// The mathematical view of a `Profile`.
pub struct ProfileModel {
    pub name: Seq<char>,
    pub id: u128,
    pub offline: bool,
}

impl View for Profile {
    type V = ProfileModel;

    open spec fn view(&self) -> ProfileModel {
        ProfileModel { name: self.name@, id: self.id, offline: self.offline }
    }
}

/// Why a login failed.
#[derive(Clone, Copy, Debug, PartialEq, Eq, Structural)]
pub enum LoginError {
    /// "Already connected."
    AlreadyConnected,
    /// "Not connected to server."
    NotConnectedToServer,
    /// The read gave no packet ("Empty packet").
    EmptyPacket,
    /// "Recieved an unexpected packet."
    UnexpectedPacket,
    /// "Cannot use encryption with offline account."
    OfflineEncryption,
    /// Reading a packet failed; that read error is the login's error.
    ReadFailed,
    /// Announcing the join to the session service failed; that error is the
    /// login's error.
    JoinFailed,
    /// Writing the encryption response failed; that write error is the login's
    /// error.
    WriteFailed,
    /// Switching encryption on failed; that error is the login's error.
    EncryptionFailed,
}

/// Where a login stands: what it waits for.
#[derive(Clone, Debug, PartialEq, Eq)]
pub enum LoginStep {
    /// Not begun.
    Idle,
    /// Waiting for the server's first login packet.
    AwaitLoginPacket,
    /// Waiting for the encrypted shared secret and verify token; holds the
    /// shared secret and the verify token in the clear.
    AwaitSecrets {
        server_id: String,
        public_key: Vec<u8>,
        shared_secret: Vec<u8>,
        verify_token: Vec<u8>,
    },
    /// Waiting for the session service to accept the join; holds the encrypted
    /// secret and token, and the shared secret in the clear.
    AwaitJoin { encrypted_secret: Vec<u8>, encrypted_token: Vec<u8>, shared_secret: Vec<u8> },
    /// Waiting for the encryption response to be written; holds the shared
    /// secret in the clear.
    AwaitResponseWritten { shared_secret: Vec<u8> },
    /// Waiting for encryption to be switched on.
    AwaitEncryptionEnabled,
    /// Waiting for the server's packet after encryption was switched on.
    AwaitPacketAfterEncryption,
    /// Waiting for the compression threshold to be set.
    AwaitCompressionSet,
    /// Waiting for the server's packet after compression was set.
    AwaitPacketAfterCompression,
    /// Waiting for the connection to enter the play state.
    AwaitPlayState,
    /// Finished.
    Done,
}

/// The mathematical view of a `LoginStep`.
pub enum LoginStepModel {
    Idle,
    AwaitLoginPacket,
    AwaitSecrets {
        server_id: Seq<char>,
        public_key: Seq<u8>,
        shared_secret: Seq<u8>,
        verify_token: Seq<u8>,
    },
    AwaitJoin { encrypted_secret: Seq<u8>, encrypted_token: Seq<u8>, shared_secret: Seq<u8> },
    AwaitResponseWritten { shared_secret: Seq<u8> },
    AwaitEncryptionEnabled,
    AwaitPacketAfterEncryption,
    AwaitCompressionSet,
    AwaitPacketAfterCompression,
    AwaitPlayState,
    Done,
}

impl View for LoginStep {
    type V = LoginStepModel;

    open spec fn view(&self) -> LoginStepModel {
        match self {
            LoginStep::Idle => LoginStepModel::Idle,
            LoginStep::AwaitLoginPacket => LoginStepModel::AwaitLoginPacket,
            LoginStep::AwaitSecrets { server_id, public_key, shared_secret, verify_token } =>
                LoginStepModel::AwaitSecrets {
                    server_id: server_id@,
                    public_key: public_key@,
                    shared_secret: shared_secret@,
                    verify_token: verify_token@,
                },
            LoginStep::AwaitJoin { encrypted_secret, encrypted_token, shared_secret } =>
                LoginStepModel::AwaitJoin {
                    encrypted_secret: encrypted_secret@,
                    encrypted_token: encrypted_token@,
                    shared_secret: shared_secret@,
                },
            LoginStep::AwaitResponseWritten { shared_secret } =>
                LoginStepModel::AwaitResponseWritten { shared_secret: shared_secret@ },
            LoginStep::AwaitEncryptionEnabled => LoginStepModel::AwaitEncryptionEnabled,
            LoginStep::AwaitPacketAfterEncryption => LoginStepModel::AwaitPacketAfterEncryption,
            LoginStep::AwaitCompressionSet => LoginStepModel::AwaitCompressionSet,
            LoginStep::AwaitPacketAfterCompression => LoginStepModel::AwaitPacketAfterCompression,
            LoginStep::AwaitPlayState => LoginStepModel::AwaitPlayState,
            LoginStep::Done => LoginStepModel::Done,
        }
    }
}

/// What the caller reports to the login.
#[derive(Clone, Debug, PartialEq, Eq)]
pub enum LoginEvent {
    /// Begin the login.
    Begin,
    /// The outcome of the read that the login asked for.
    Read(ReadOutcome),
    /// The shared secret and the verify token that the login holds, each
    /// encrypted with the server's key and cut to its first 16 bytes (what
    /// `encrypt_secrets` reports).
    Encrypted { shared_secret: Vec<u8>, verify_token: Vec<u8> },
    /// Whether the join, write or switch to encryption that the login asked for
    /// succeeded.
    Completed(bool),
    /// The threshold or state that the login asked for was set.
    Acknowledged,
}

/// The mathematical view of a `LoginEvent`.
pub enum LoginEventModel {
    Begin,
    Read(ReadOutcomeModel),
    Encrypted { shared_secret: Seq<u8>, verify_token: Seq<u8> },
    Completed(bool),
    Acknowledged,
}

impl View for LoginEvent {
    type V = LoginEventModel;

    open spec fn view(&self) -> LoginEventModel {
        match self {
            LoginEvent::Begin => LoginEventModel::Begin,
            LoginEvent::Read(r) => LoginEventModel::Read(r@),
            LoginEvent::Encrypted { shared_secret, verify_token } => LoginEventModel::Encrypted {
                shared_secret: shared_secret@,
                verify_token: verify_token@,
            },
            LoginEvent::Completed(ok) => LoginEventModel::Completed(*ok),
            LoginEvent::Acknowledged => LoginEventModel::Acknowledged,
        }
    }
}

/// What the login asks the caller to do next.
#[derive(Debug, PartialEq, Eq)]
pub enum LoginAction {
    /// Read the next packet from the server.
    ReadPacket,
    /// Encrypt `shared_secret` and `verify_token` with the server's public key
    /// `public_key`, which `encrypt_secrets` does.
    Encrypt { public_key: Vec<u8>, shared_secret: Vec<u8>, verify_token: Vec<u8> },
    /// Announce the join of the profile to the session service.
    JoinServer { server_id: String, shared_secret: Vec<u8>, public_key: Vec<u8> },
    /// Write this packet to the server.
    Write(OutPacket),
    /// Switch the connection to encryption with this key and initialization
    /// vector.
    EnableEncryption { key: Vec<u8>, iv: Vec<u8> },
    /// Set the connection's compression threshold.
    SetCompressionThreshold(i32),
    /// Switch the connection to this state.
    SetState(ProtocolState),
    /// The login is over, with this result.
    Finish(Result<(), LoginError>),
}

/// The mathematical view of a `LoginAction`.
pub enum LoginActionModel {
    ReadPacket,
    Encrypt { public_key: Seq<u8>, shared_secret: Seq<u8>, verify_token: Seq<u8> },
    JoinServer { server_id: Seq<char>, shared_secret: Seq<u8>, public_key: Seq<u8> },
    Write(OutPacketModel),
    EnableEncryption { key: Seq<u8>, iv: Seq<u8> },
    SetCompressionThreshold(i32),
    SetState(ProtocolState),
    Finish(Result<(), LoginError>),
}

impl View for LoginAction {
    type V = LoginActionModel;

    open spec fn view(&self) -> LoginActionModel {
        match self {
            LoginAction::ReadPacket => LoginActionModel::ReadPacket,
            LoginAction::Encrypt { public_key, shared_secret, verify_token } =>
                LoginActionModel::Encrypt {
                    public_key: public_key@,
                    shared_secret: shared_secret@,
                    verify_token: verify_token@,
                },
            LoginAction::JoinServer { server_id, shared_secret, public_key } =>
                LoginActionModel::JoinServer {
                    server_id: server_id@,
                    shared_secret: shared_secret@,
                    public_key: public_key@,
                },
            LoginAction::Write(p) => LoginActionModel::Write(p@),
            LoginAction::EnableEncryption { key, iv } => LoginActionModel::EnableEncryption {
                key: key@,
                iv: iv@,
            },
            LoginAction::SetCompressionThreshold(t) => LoginActionModel::SetCompressionThreshold(*t),
            LoginAction::SetState(s) => LoginActionModel::SetState(*s),
            LoginAction::Finish(r) => LoginActionModel::Finish(*r),
        }
    }
}

/// A client's login state: its profile, whether it is connected (logged in),
/// whether it holds a connection to a server, and where its login stands.
pub struct ClientRunner {
    pub profile: Profile,
    pub connected: bool,
    pub has_server: bool,
    pub step: LoginStep,
}

/// The mathematical view of a `ClientRunner`.
pub struct ClientRunnerModel {
    pub profile: ProfileModel,
    pub connected: bool,
    pub has_server: bool,
    pub step: LoginStepModel,
}

impl View for ClientRunner {
    type V = ClientRunnerModel;

    open spec fn view(&self) -> ClientRunnerModel {
        ClientRunnerModel {
            profile: self.profile@,
            connected: self.connected,
            has_server: self.has_server,
            step: self.step@,
        }
    }
}


/// Whether a login at `step` can take `e`: each step waits for one kind of
/// report, and a finished login takes none.
pub open spec fn login_accepts(step: LoginStepModel, e: LoginEventModel) -> bool {
    match step {
        LoginStepModel::Idle => e is Begin,
        LoginStepModel::AwaitLoginPacket | LoginStepModel::AwaitPacketAfterEncryption
        | LoginStepModel::AwaitPacketAfterCompression => e is Read,
        LoginStepModel::AwaitSecrets { public_key, shared_secret, verify_token, .. } => match e {
            LoginEventModel::Encrypted {
                shared_secret: encrypted_secret,
                verify_token: encrypted_token,
            } => is_encrypted_prefix(public_key, shared_secret, encrypted_secret)
                && is_encrypted_prefix(public_key, verify_token, encrypted_token),
            _ => false,
        },
        LoginStepModel::AwaitJoin { .. } | LoginStepModel::AwaitResponseWritten { .. }
        | LoginStepModel::AwaitEncryptionEnabled => e is Completed,
        LoginStepModel::AwaitCompressionSet | LoginStepModel::AwaitPlayState => e is Acknowledged,
        LoginStepModel::Done => false,
    }
}

/// `c` moved to `step`.
pub open spec fn moved(c: ClientRunnerModel, step: LoginStepModel) -> ClientRunnerModel {
    ClientRunnerModel { step, ..c }
}

/// `c` finished with `r`.
pub open spec fn finished(c: ClientRunnerModel, r: Result<(), LoginError>) -> (
    ClientRunnerModel,
    LoginActionModel,
) {
    (moved(c, LoginStepModel::Done), LoginActionModel::Finish(r))
}

/// Reading the next packet: without a connection to a server the login fails
/// at once; otherwise it reads and then waits at `then`.
pub open spec fn read_next(c: ClientRunnerModel, then: LoginStepModel) -> (
    ClientRunnerModel,
    LoginActionModel,
) {
    if !c.has_server {
        finished(c, Err(LoginError::NotConnectedToServer))
    } else {
        (moved(c, then), LoginActionModel::ReadPacket)
    }
}

/// The answer to an encryption request, where `secret` is the freshly drawn
/// shared secret: it is kept in the clear and handed out to be encrypted.
pub open spec fn encryption_requested(
    c: ClientRunnerModel,
    server_id: Seq<char>,
    public_key: Seq<u8>,
    verify_token: Seq<u8>,
    secret: Seq<u8>,
) -> (ClientRunnerModel, LoginActionModel) {
    if c.connected {
        finished(c, Err(LoginError::AlreadyConnected))
    } else if c.profile.offline {
        finished(c, Err(LoginError::OfflineEncryption))
    } else if !c.has_server {
        finished(c, Err(LoginError::NotConnectedToServer))
    } else {
        (
            moved(
                c,
                LoginStepModel::AwaitSecrets {
                    server_id,
                    public_key,
                    shared_secret: secret,
                    verify_token,
                },
            ),
            LoginActionModel::Encrypt { public_key, shared_secret: secret, verify_token },
        )
    }
}

/// The answer to a compression request.
pub open spec fn compression_requested(c: ClientRunnerModel, threshold: i32) -> (
    ClientRunnerModel,
    LoginActionModel,
) {
    if c.connected {
        finished(c, Err(LoginError::AlreadyConnected))
    } else if !c.has_server {
        finished(c, Err(LoginError::NotConnectedToServer))
    } else {
        (
            moved(c, LoginStepModel::AwaitCompressionSet),
            LoginActionModel::SetCompressionThreshold(threshold),
        )
    }
}

/// The answer to a login success: the client is connected from now on; an
/// offline profile takes the UUID and name that the server assigned; then the
/// connection enters the play state.
pub open spec fn login_succeeded(c: ClientRunnerModel, uuid: u128, username: Seq<char>) -> (
    ClientRunnerModel,
    LoginActionModel,
) {
    let profile = if c.profile.offline {
        ProfileModel { name: username, id: uuid, offline: true }
    } else {
        c.profile
    };
    let c2 = ClientRunnerModel { connected: true, profile, ..c };
    if !c2.has_server {
        finished(c2, Err(LoginError::NotConnectedToServer))
    } else {
        (moved(c2, LoginStepModel::AwaitPlayState), LoginActionModel::SetState(ProtocolState::Play))
    }
}

/// The answer to a read that failed or gave no packet.
pub open spec fn read_failed(c: ClientRunnerModel, r: ReadOutcomeModel) -> (
    ClientRunnerModel,
    LoginActionModel,
) {
    if r is Failed {
        finished(c, Err(LoginError::ReadFailed))
    } else {
        finished(c, Err(LoginError::EmptyPacket))
    }
}

/// The next state of a login and what it asks for, given a report that it
/// accepts; `secret` is the shared secret drawn when an encryption request
/// arrives, and unused otherwise.
pub open spec fn login_next(c: ClientRunnerModel, e: LoginEventModel, secret: Seq<u8>) -> (
    ClientRunnerModel,
    LoginActionModel,
) {
    match c.step {
        LoginStepModel::Idle => if c.connected {
            finished(c, Err(LoginError::AlreadyConnected))
        } else {
            read_next(c, LoginStepModel::AwaitLoginPacket)
        },
        LoginStepModel::AwaitLoginPacket => match e {
            LoginEventModel::Read(ReadOutcomeModel::Packet(p)) => match p {
                PacketModel::LoginEncryptionRequest { server_id, public_key, verify_token } =>
                    encryption_requested(c, server_id, public_key, verify_token, secret),
                PacketModel::LoginSetCompression { threshold } => compression_requested(c, threshold),
                PacketModel::LoginSuccess { uuid, username } => login_succeeded(c, uuid, username),
                _ => finished(c, Err(LoginError::UnexpectedPacket)),
            },
            LoginEventModel::Read(r) => read_failed(c, r),
            _ => finished(c, Err(LoginError::UnexpectedPacket)),
        },
        LoginStepModel::AwaitSecrets { server_id, public_key, shared_secret, .. } => match e {
            LoginEventModel::Encrypted { shared_secret: encrypted_secret, verify_token } => (
                moved(
                    c,
                    LoginStepModel::AwaitJoin {
                        encrypted_secret,
                        encrypted_token: verify_token,
                        shared_secret,
                    },
                ),
                LoginActionModel::JoinServer {
                    server_id,
                    shared_secret: encrypted_secret,
                    public_key,
                },
            ),
            _ => finished(c, Err(LoginError::JoinFailed)),
        },
        LoginStepModel::AwaitJoin { encrypted_secret, encrypted_token, shared_secret } => if e
            == LoginEventModel::Completed(true) {
            (
                moved(c, LoginStepModel::AwaitResponseWritten { shared_secret }),
                LoginActionModel::Write(
                    OutPacketModel::LoginEncryptionResponse {
                        shared_secret: encrypted_secret,
                        verify_token: encrypted_token,
                    },
                ),
            )
        } else {
            finished(c, Err(LoginError::JoinFailed))
        },
        LoginStepModel::AwaitResponseWritten { shared_secret } => if e
            == LoginEventModel::Completed(true) {
            (
                moved(c, LoginStepModel::AwaitEncryptionEnabled),
                LoginActionModel::EnableEncryption { key: shared_secret, iv: shared_secret },
            )
        } else {
            finished(c, Err(LoginError::WriteFailed))
        },
        LoginStepModel::AwaitEncryptionEnabled => if e == LoginEventModel::Completed(true) {
            read_next(c, LoginStepModel::AwaitPacketAfterEncryption)
        } else {
            finished(c, Err(LoginError::EncryptionFailed))
        },
        LoginStepModel::AwaitPacketAfterEncryption => match e {
            LoginEventModel::Read(ReadOutcomeModel::Packet(p)) => match p {
                PacketModel::LoginSetCompression { threshold } => compression_requested(c, threshold),
                PacketModel::LoginSuccess { uuid, username } => login_succeeded(c, uuid, username),
                _ => finished(c, Err(LoginError::UnexpectedPacket)),
            },
            LoginEventModel::Read(r) => read_failed(c, r),
            _ => finished(c, Err(LoginError::UnexpectedPacket)),
        },
        LoginStepModel::AwaitCompressionSet => read_next(
            c,
            LoginStepModel::AwaitPacketAfterCompression,
        ),
        LoginStepModel::AwaitPacketAfterCompression => match e {
            LoginEventModel::Read(ReadOutcomeModel::Packet(p)) => match p {
                PacketModel::LoginSuccess { uuid, username } => login_succeeded(c, uuid, username),
                _ => finished(c, Err(LoginError::UnexpectedPacket)),
            },
            LoginEventModel::Read(r) => read_failed(c, r),
            _ => finished(c, Err(LoginError::UnexpectedPacket)),
        },
        LoginStepModel::AwaitPlayState => finished(c, Ok(())),
        LoginStepModel::Done => (c, LoginActionModel::Finish(Err(LoginError::AlreadyConnected))),
    }
}

/// How far a login has come; every report moves it further.
pub open spec fn login_rank(step: LoginStepModel) -> nat {
    match step {
        LoginStepModel::Idle => 0,
        LoginStepModel::AwaitLoginPacket => 1,
        LoginStepModel::AwaitSecrets { .. } => 2,
        LoginStepModel::AwaitJoin { .. } => 3,
        LoginStepModel::AwaitResponseWritten { .. } => 4,
        LoginStepModel::AwaitEncryptionEnabled => 5,
        LoginStepModel::AwaitPacketAfterEncryption => 6,
        LoginStepModel::AwaitCompressionSet => 7,
        LoginStepModel::AwaitPacketAfterCompression => 8,
        LoginStepModel::AwaitPlayState => 9,
        LoginStepModel::Done => 10,
    }
}

/// Every report moves a login forward, and it finishes exactly when it
/// reaches `Done`: so a login finishes after at most ten reports.
pub proof fn lemma_login_progress(c: ClientRunnerModel, e: LoginEventModel, secret: Seq<u8>)
    requires
        login_accepts(c.step, e),
    ensures
        login_rank(login_next(c, e, secret).0.step) > login_rank(c.step),
        login_rank(login_next(c, e, secret).0.step) <= 10,
        login_next(c, e, secret).1 is Finish <==> login_next(c, e, secret).0.step is Done,
{
}

/// A login never changes whether the account is offline or whether the client
/// holds a connection to a server, never disconnects a connected client, and
/// never changes the profile of an online account.
pub proof fn lemma_login_keeps(c: ClientRunnerModel, e: LoginEventModel, secret: Seq<u8>)
    requires
        login_accepts(c.step, e),
    ensures
        login_next(c, e, secret).0.profile.offline == c.profile.offline,
        login_next(c, e, secret).0.has_server == c.has_server,
        c.connected ==> login_next(c, e, secret).0.connected,
        !c.profile.offline ==> login_next(c, e, secret).0.profile == c.profile,
{
}

/// The shared secret that a login at `step` holds in the clear, if any.
pub open spec fn secret_held(step: LoginStepModel) -> Option<Seq<u8>> {
    match step {
        LoginStepModel::AwaitSecrets { shared_secret, .. } => Some(shared_secret),
        LoginStepModel::AwaitJoin { shared_secret, .. } => Some(shared_secret),
        LoginStepModel::AwaitResponseWritten { shared_secret } => Some(shared_secret),
        _ => None,
    }
}

/// The states a login can be in: an offline account is never in the middle of
/// an encrypted login, a client waiting for the play state is connected, and a
/// shared secret held is sixteen bytes long.
pub open spec fn login_consistent(c: ClientRunnerModel) -> bool {
    &&& c.profile.offline ==> !(c.step is AwaitSecrets || c.step is AwaitJoin
        || c.step is AwaitResponseWritten || c.step is AwaitEncryptionEnabled)
    &&& c.step is AwaitPlayState ==> c.connected
    &&& secret_held(c.step) matches Some(k) ==> k.len() == SHARED_SECRET_LEN
}

/// Every step keeps a login consistent; an offline account never encrypts,
/// never announces a join and never switches encryption on; and a login that
/// succeeds leaves the client connected.
pub proof fn lemma_login_invariant(c: ClientRunnerModel, e: LoginEventModel, secret: Seq<u8>)
    requires
        login_accepts(c.step, e),
        login_consistent(c),
        secret.len() == SHARED_SECRET_LEN,
    ensures
        login_consistent(login_next(c, e, secret).0),
        c.profile.offline ==> !(login_next(c, e, secret).1 is Encrypt || login_next(c, e, secret).1 is JoinServer
            || login_next(c, e, secret).1 is EnableEncryption || login_next(c, e, secret).1 is Write),
        login_next(c, e, secret).1 == LoginActionModel::Finish(Ok(())) ==> login_next(c, e, secret).0.connected,
{
}

/// Whether a login at `step` waits for a packet from the server.
pub open spec fn waits_for_packet(step: LoginStepModel) -> bool {
    step is AwaitLoginPacket || step is AwaitPacketAfterEncryption
        || step is AwaitPacketAfterCompression
}

/// Whenever a login that waits for the server's packet reads a login success,
/// the client is connected from then on; an offline account takes the UUID and
/// the name that the server assigned, whichever step the success came in; an
/// online account keeps its own; and, holding a server, the connection then
/// enters the play state.
pub proof fn lemma_login_success_sets_identity(
    c: ClientRunnerModel,
    uuid: u128,
    username: Seq<char>,
    secret: Seq<u8>,
)
    requires
        waits_for_packet(c.step),
    ensures
        ({
            let e = LoginEventModel::Read(
                ReadOutcomeModel::Packet(PacketModel::LoginSuccess { uuid, username }),
            );
            let (after, a) = login_next(c, e, secret);
            &&& after.connected
            &&& after.profile.offline == c.profile.offline
            &&& c.profile.offline ==> after.profile.id == uuid && after.profile.name == username
            &&& !c.profile.offline ==> after.profile == c.profile
            &&& c.has_server ==> a == LoginActionModel::SetState(ProtocolState::Play)
                && after.step == LoginStepModel::AwaitPlayState
            &&& !c.has_server ==> a == LoginActionModel::Finish(
                Err(LoginError::NotConnectedToServer),
            )
        }),
{
}

/// A compression request that arrives as the server's first login packet, or
/// after encryption was switched on, sets exactly the requested threshold, when
/// the client is not yet connected and holds a server; the login then waits for
/// the threshold to be set, and afterwards reads the server's next packet.
pub proof fn lemma_login_sets_requested_compression(
    c: ClientRunnerModel,
    threshold: i32,
    secret: Seq<u8>,
)
    requires
        c.step is AwaitLoginPacket || c.step is AwaitPacketAfterEncryption,
        !c.connected,
        c.has_server,
    ensures
        ({
            let e = LoginEventModel::Read(
                ReadOutcomeModel::Packet(PacketModel::LoginSetCompression { threshold }),
            );
            let (after, a) = login_next(c, e, secret);
            &&& a == LoginActionModel::SetCompressionThreshold(threshold)
            &&& after.step == LoginStepModel::AwaitCompressionSet
            &&& after.profile == c.profile
            &&& !after.connected
            &&& login_next(after, LoginEventModel::Acknowledged, secret).1
                == LoginActionModel::ReadPacket
            &&& login_next(after, LoginEventModel::Acknowledged, secret).0.step
                == LoginStepModel::AwaitPacketAfterCompression
        }),
{
}

/// An encrypted login of an online account that is not yet connected and holds
/// a server: the encryption request has the server's key, the fresh secret and
/// the server's verify token encrypted; the encrypted secret is announced with
/// the server's id and key; once the join is accepted, the encryption response
/// carries exactly the encrypted secret and the encrypted token; once it is
/// written, encryption is switched on with the secret as key and as
/// initialization vector; and then the server's next packet is read.
pub proof fn lemma_encrypted_login_path(
    c: ClientRunnerModel,
    server_id: Seq<char>,
    public_key: Seq<u8>,
    verify_token: Seq<u8>,
    secret: Seq<u8>,
    encrypted_secret: Seq<u8>,
    encrypted_token: Seq<u8>,
)
    requires
        c.step is AwaitLoginPacket,
        !c.connected,
        !c.profile.offline,
        c.has_server,
    ensures
        ({
            let request = LoginEventModel::Read(
                ReadOutcomeModel::Packet(
                    PacketModel::LoginEncryptionRequest { server_id, public_key, verify_token },
                ),
            );
            let (c1, a1) = login_next(c, request, secret);
            let (c2, a2) = login_next(
                c1,
                LoginEventModel::Encrypted {
                    shared_secret: encrypted_secret,
                    verify_token: encrypted_token,
                },
                secret,
            );
            let (c3, a3) = login_next(c2, LoginEventModel::Completed(true), secret);
            let (c4, a4) = login_next(c3, LoginEventModel::Completed(true), secret);
            let (c5, a5) = login_next(c4, LoginEventModel::Completed(true), secret);
            &&& a1 == LoginActionModel::Encrypt { public_key, shared_secret: secret, verify_token }
            &&& a2 == LoginActionModel::JoinServer {
                server_id,
                shared_secret: encrypted_secret,
                public_key,
            }
            &&& a3 == LoginActionModel::Write(
                OutPacketModel::LoginEncryptionResponse {
                    shared_secret: encrypted_secret,
                    verify_token: encrypted_token,
                },
            )
            &&& a4 == LoginActionModel::EnableEncryption { key: secret, iv: secret }
            &&& a5 == LoginActionModel::ReadPacket
            &&& c5.step == LoginStepModel::AwaitPacketAfterEncryption
            &&& c5.profile == c.profile && !c5.connected
        }),
{
}

/// A login that waits for the server's packet fails with the read's error when
/// the read fails, with `EmptyPacket` when it gives no packet, and with
/// `UnexpectedPacket` on a packet that has no place in a login (one that is
/// neither a login success, a compression request nor an encryption request).
pub proof fn lemma_login_read_failures(c: ClientRunnerModel, p: PacketModel, secret: Seq<u8>)
    requires
        waits_for_packet(c.step),
        !(p is LoginSuccess || p is LoginSetCompression || p is LoginEncryptionRequest),
    ensures
        login_next(c, LoginEventModel::Read(ReadOutcomeModel::Failed), secret).1
            == LoginActionModel::Finish(Err(LoginError::ReadFailed)),
        login_next(c, LoginEventModel::Read(ReadOutcomeModel::Empty), secret).1
            == LoginActionModel::Finish(Err(LoginError::EmptyPacket)),
        login_next(c, LoginEventModel::Read(ReadOutcomeModel::Packet(p)), secret).1
            == LoginActionModel::Finish(Err(LoginError::UnexpectedPacket)),
{
}

/// The shared secret of an encrypted login is drawn once and then carried
/// unchanged: the secret handed out to be encrypted is the one the login holds
/// from then on, the login keeps holding that same secret until it is used,
/// and the key and the initialization vector that encryption is switched on
/// with are both that secret.
pub proof fn lemma_login_secret_carried(c: ClientRunnerModel, e: LoginEventModel, secret: Seq<u8>)
    requires
        login_accepts(c.step, e),
    ensures
        login_next(c, e, secret).1 matches LoginActionModel::Encrypt { shared_secret, .. }
            ==> shared_secret == secret && secret_held(login_next(c, e, secret).0.step) == Some(
            secret,
        ),
        secret_held(c.step) is Some && secret_held(login_next(c, e, secret).0.step) is Some
            ==> secret_held(login_next(c, e, secret).0.step) == secret_held(c.step),
        login_next(c, e, secret).1 matches LoginActionModel::EnableEncryption { key, iv } ==> key
            == iv && secret_held(c.step) == Some(key),
{
}

/// `rand::random::<u8>()`: a byte from the thread-local random generator.
/// The byte is random, so nothing is claimed of it.
#[verifier::external_body]
fn random_byte() -> u8 {
    rand::random::<u8>()
}

/// A fresh shared secret for an encrypted login: sixteen random bytes.
fn new_shared_secret() -> (s: Vec<u8>)
    ensures
        s@.len() == SHARED_SECRET_LEN,
{
    let mut s: Vec<u8> = Vec::new();
    let mut i: usize = 0;
    while i < SHARED_SECRET_LEN
        invariant
            i <= SHARED_SECRET_LEN,
            s@.len() == i,
        decreases SHARED_SECRET_LEN - i,
    {
        s.push(random_byte());
        i = i + 1;
    }
    s
}

impl ClientRunner {
    /// A client that has not connected yet, for the given profile.
    pub fn new(profile: Profile) -> (c: ClientRunner)
        ensures
            c.profile == profile,
            !c.connected,
            !c.has_server,
            c.step == LoginStep::Idle,
    {
        ClientRunner { profile, connected: false, has_server: false, step: LoginStep::Idle }
    }

    /// Records that the client now holds a connection to a server.
    pub fn attach_server(&mut self)
        ensures
            final(self)@ == (ClientRunnerModel { has_server: true, ..old(self)@ }),
    {
        self.has_server = true;
    }

    /// Makes the login ready to run (again): it goes back to not begun,
    /// keeping the profile, whether the client is connected, and whether it
    /// holds a connection to a server.
    pub fn restart_login(&mut self)
        ensures
            final(self)@ == moved(old(self)@, LoginStepModel::Idle),
    {
        self.step = LoginStep::Idle;
    }

    /// The player's name and UUID.
    pub fn get_name_uuid(&self) -> (r: (String, u128))
        ensures
            r.0@ == self.profile.name@,
            r.1 == self.profile.id,
    {
        (self.profile.name.clone(), self.profile.id)
    }

    fn finish(&mut self, r: Result<(), LoginError>) -> (a: LoginAction)
        ensures
            (final(self)@, a@) == finished(old(self)@, r),
    {
        self.step = LoginStep::Done;
        LoginAction::Finish(r)
    }

    /// Reads the next packet from the server when connected to one.
    fn read_packet(&mut self, then: LoginStep) -> (a: LoginAction)
        ensures
            (final(self)@, a@) == read_next(old(self)@, then@),
    {
        if !self.has_server {
            self.finish(Err(LoginError::NotConnectedToServer))
        } else {
            self.step = then;
            LoginAction::ReadPacket
        }
    }

    /// Starts the encrypted login; encryption needs an online account. Draws a
    /// fresh shared secret, which it returns (as a ghost value) beside the action.
    fn enable_encryption(&mut self, server_id: String, public_key: Vec<u8>, verify_token: Vec<u8>) -> (r:
        (LoginAction, Ghost<Seq<u8>>))
        ensures
            r.1@.len() == SHARED_SECRET_LEN,
            (final(self)@, r.0@) == encryption_requested(
                old(self)@,
                server_id@,
                public_key@,
                verify_token@,
                r.1@,
            ),
    {
        let ghost unused: Seq<u8> = Seq::new(16, |_i: int| 0u8);
        if self.connected {
            (self.finish(Err(LoginError::AlreadyConnected)), Ghost(unused))
        } else if self.profile.offline {
            (self.finish(Err(LoginError::OfflineEncryption)), Ghost(unused))
        } else if !self.has_server {
            (self.finish(Err(LoginError::NotConnectedToServer)), Ghost(unused))
        } else {
            let secret = new_shared_secret();
            let ghost drawn = secret@;
            let key = public_key.clone();
            let clear = secret.clone();
            let token = verify_token.clone();
            self.step = LoginStep::AwaitSecrets {
                server_id,
                public_key,
                shared_secret: clear,
                verify_token: token,
            };
            (LoginAction::Encrypt { public_key: key, shared_secret: secret, verify_token }, Ghost(drawn))
        }
    }

    /// Sets the size threshold at which packets are compressed.
    fn set_compression_threshold(&mut self, threshold: i32) -> (a: LoginAction)
        ensures
            (final(self)@, a@) == compression_requested(old(self)@, threshold),
    {
        if self.connected {
            self.finish(Err(LoginError::AlreadyConnected))
        } else if !self.has_server {
            self.finish(Err(LoginError::NotConnectedToServer))
        } else {
            self.step = LoginStep::AwaitCompressionSet;
            LoginAction::SetCompressionThreshold(threshold)
        }
    }

    /// Executed when the server's login succeeds.
    fn login_success(&mut self, uuid: u128, username: String) -> (a: LoginAction)
        ensures
            (final(self)@, a@) == login_succeeded(old(self)@, uuid, username@),
    {
        self.connected = true;
        if self.profile.offline {
            self.profile.id = uuid;
            self.profile.name = username;
        }
        if !self.has_server {
            self.finish(Err(LoginError::NotConnectedToServer))
        } else {
            self.step = LoginStep::AwaitPlayState;
            LoginAction::SetState(ProtocolState::Play)
        }
    }

    fn read_failure(&mut self, r: &ReadOutcome) -> (a: LoginAction)
        ensures
            (final(self)@, a@) == read_failed(old(self)@, r@),
    {
        match r {
            ReadOutcome::Failed => self.finish(Err(LoginError::ReadFailed)),
            _ => self.finish(Err(LoginError::EmptyPacket)),
        }
    }

    /// Performs the encryption that a login waiting for its secrets asks for:
    /// encrypts the shared secret and the verify token that it holds with the
    /// server's key, keeps the first 16 bytes of each ciphertext, and moves the
    /// login on with them. When either encryption fails the login is left as it
    /// was and the failure is returned; it is `KeyRejected` exactly when the
    /// server's key does not decode.
    pub fn encrypt_secrets(&mut self) -> (r: Result<LoginAction, CryptoError>)
        requires
            old(self)@.step matches LoginStepModel::AwaitSecrets { shared_secret, verify_token, .. }
                && shared_secret.len() <= i32::MAX && verify_token.len() <= i32::MAX,
        ensures
            old(self)@.step matches LoginStepModel::AwaitSecrets {
                public_key,
                shared_secret,
                verify_token,
                ..
            } ==> {
                &&& r matches Ok(a) ==> exists|encrypted_secret: Seq<u8>, encrypted_token: Seq<u8>|
                    {
                        &&& is_encrypted_prefix(public_key, shared_secret, encrypted_secret)
                        &&& is_encrypted_prefix(public_key, verify_token, encrypted_token)
                        &&& (final(self)@, a@) == #[trigger] login_next(
                            old(self)@,
                            LoginEventModel::Encrypted {
                                shared_secret: encrypted_secret,
                                verify_token: encrypted_token,
                            },
                            shared_secret,
                        )
                    }
                &&& r is Err ==> final(self)@ == old(self)@
                &&& r == Err::<LoginAction, CryptoError>(CryptoError::KeyRejected)
                    <==> !der_is_rsa_public_key(public_key)
            },
    {
        let (key, secret, token) = match &self.step {
            LoginStep::AwaitSecrets { public_key, shared_secret, verify_token, .. } => (
                public_key.clone(),
                shared_secret.clone(),
                verify_token.clone(),
            ),
            _ => {
                proof {
                    assert(false);
                }
                return Err(CryptoError::KeyRejected);
            },
        };
        let encrypted_secret = match encrypt_for_server(key.as_slice(), secret.as_slice()) {
            Ok(c) => c,
            Err(e) => return Err(e),
        };
        let encrypted_token = match encrypt_for_server(key.as_slice(), token.as_slice()) {
            Ok(c) => c,
            Err(e) => return Err(e),
        };
        let ghost es = encrypted_secret@;
        let ghost et = encrypted_token@;
        let event = LoginEvent::Encrypted { shared_secret: encrypted_secret, verify_token: encrypted_token };
        let a = self.step(event);
        proof {
            let any = choose|s: Seq<u8>|
                s.len() == SHARED_SECRET_LEN && (self@, a@) == #[trigger] login_next(
                    old(self)@,
                    LoginEventModel::Encrypted { shared_secret: es, verify_token: et },
                    s,
                );
            assert((self@, a@) == login_next(
                old(self)@,
                LoginEventModel::Encrypted { shared_secret: es, verify_token: et },
                secret@,
            ));
        }
        Ok(a)
    }

    /// Takes the caller's report of what came of the last action, moves the
    /// login on, and returns the next action. On an encryption request it draws
    /// a fresh shared secret of sixteen random bytes; the next state and the
    /// action are those of `login_next` for that secret.
    pub fn step(&mut self, event: LoginEvent) -> (a: LoginAction)
        requires
            login_accepts(old(self)@.step, event@),
        ensures
            exists|secret: Seq<u8>|
                secret.len() == SHARED_SECRET_LEN && (final(self)@, a@) == #[trigger] login_next(
                    old(self)@,
                    event@,
                    secret,
                ),
    {
        let ghost e = event@;
        let ghost mut drawn: Seq<u8> = Seq::new(16, |_i: int| 0u8);
        let mut step = LoginStep::Done;
        std::mem::swap(&mut step, &mut self.step);
        proof {
            assert(self@ == moved(old(self)@, LoginStepModel::Done));
        }
        let a = match step {
            LoginStep::Idle => {
                self.step = LoginStep::Idle;
                if self.connected {
                    self.finish(Err(LoginError::AlreadyConnected))
                } else {
                    self.read_packet(LoginStep::AwaitLoginPacket)
                }
            },
            LoginStep::AwaitLoginPacket => {
                self.step = LoginStep::AwaitLoginPacket;
                match event {
                    LoginEvent::Read(ReadOutcome::Packet(p)) => match p {
                        PacketView::LoginEncryptionRequest { server_id, public_key, verify_token } => {
                            let (a, Ghost(secret)) = self.enable_encryption(
                                server_id,
                                public_key,
                                verify_token,
                            );
                            proof {
                                drawn = secret;
                            }
                            a
                        },
                        PacketView::LoginSetCompression { threshold } => self.set_compression_threshold(
                            threshold,
                        ),
                        PacketView::LoginSuccess { uuid, username } => self.login_success(uuid, username),
                        _ => self.finish(Err(LoginError::UnexpectedPacket)),
                    },
                    LoginEvent::Read(r) => self.read_failure(&r),
                    _ => self.finish(Err(LoginError::UnexpectedPacket)),
                }
            },
            LoginStep::AwaitSecrets { server_id, public_key, shared_secret, .. } => match event {
                LoginEvent::Encrypted { shared_secret: encrypted_secret, verify_token } => {
                    let announced = encrypted_secret.clone();
                    self.step = LoginStep::AwaitJoin {
                        encrypted_secret,
                        encrypted_token: verify_token,
                        shared_secret,
                    };
                    LoginAction::JoinServer { server_id, shared_secret: announced, public_key }
                },
                _ => self.finish(Err(LoginError::JoinFailed)),
            },
            LoginStep::AwaitJoin { encrypted_secret, encrypted_token, shared_secret } => match event {
                LoginEvent::Completed(true) => {
                    self.step = LoginStep::AwaitResponseWritten { shared_secret };
                    LoginAction::Write(
                        OutPacket::LoginEncryptionResponse {
                            shared_secret: encrypted_secret,
                            verify_token: encrypted_token,
                        },
                    )
                },
                _ => self.finish(Err(LoginError::JoinFailed)),
            },
            LoginStep::AwaitResponseWritten { shared_secret } => match event {
                LoginEvent::Completed(true) => {
                    self.step = LoginStep::AwaitEncryptionEnabled;
                    let iv = shared_secret.clone();
                    LoginAction::EnableEncryption { key: shared_secret, iv }
                },
                _ => self.finish(Err(LoginError::WriteFailed)),
            },
            LoginStep::AwaitEncryptionEnabled => match event {
                LoginEvent::Completed(true) => self.read_packet(LoginStep::AwaitPacketAfterEncryption),
                _ => self.finish(Err(LoginError::EncryptionFailed)),
            },
            LoginStep::AwaitPacketAfterEncryption => {
                self.step = LoginStep::AwaitPacketAfterEncryption;
                match event {
                    LoginEvent::Read(ReadOutcome::Packet(p)) => match p {
                        PacketView::LoginSetCompression { threshold } => self.set_compression_threshold(
                            threshold,
                        ),
                        PacketView::LoginSuccess { uuid, username } => self.login_success(uuid, username),
                        _ => self.finish(Err(LoginError::UnexpectedPacket)),
                    },
                    LoginEvent::Read(r) => self.read_failure(&r),
                    _ => self.finish(Err(LoginError::UnexpectedPacket)),
                }
            },
            LoginStep::AwaitCompressionSet => self.read_packet(LoginStep::AwaitPacketAfterCompression),
            LoginStep::AwaitPacketAfterCompression => {
                self.step = LoginStep::AwaitPacketAfterCompression;
                match event {
                    LoginEvent::Read(ReadOutcome::Packet(p)) => match p {
                        PacketView::LoginSuccess { uuid, username } => self.login_success(uuid, username),
                        _ => self.finish(Err(LoginError::UnexpectedPacket)),
                    },
                    LoginEvent::Read(r) => self.read_failure(&r),
                    _ => self.finish(Err(LoginError::UnexpectedPacket)),
                }
            },
            LoginStep::AwaitPlayState => self.finish(Ok(())),
            LoginStep::Done => LoginAction::Finish(Err(LoginError::AlreadyConnected)),
        };
        proof {
            assert((self@, a@) == login_next(old(self)@, e, drawn));
        }
        a
    }
}

/// What the client's control channel gave: a message, nothing yet, or its
/// sender is gone.
#[derive(Clone, Copy, Debug, PartialEq, Eq, Structural)]
pub enum ControlSignal {
    Message,
    Empty,
    Disconnected,
}

/// What the client's packet loop does next.
#[derive(Clone, Copy, Debug, PartialEq, Eq, Structural)]
pub enum ClientLoopAction {
    /// End the loop.
    Stop,
    /// Go round again.
    Continue,
    /// Read and handle the next packet from the server, then go round again.
    ReadPacket,
}

/// One round of the client's packet loop: the loop ends when the control
/// channel's sender is gone or when the client is no longer connected; while
/// nothing arrives on the control channel it reads the server's packets; a
/// message on the control channel starts the next round.
pub fn client_loop_step(signal: ControlSignal, connected: bool) -> (a: ClientLoopAction)
    ensures
        a == (match signal {
            ControlSignal::Message => ClientLoopAction::Continue,
            ControlSignal::Disconnected => ClientLoopAction::Stop,
            ControlSignal::Empty => if connected {
                ClientLoopAction::ReadPacket
            } else {
                ClientLoopAction::Stop
            },
        }),
{
    match signal {
        ControlSignal::Message => ClientLoopAction::Continue,
        ControlSignal::Disconnected => ClientLoopAction::Stop,
        ControlSignal::Empty => if connected {
            ClientLoopAction::ReadPacket
        } else {
            ClientLoopAction::Stop
        },
    }
}

/// The packet that a read gave the client: without a connection to a server
/// (`None`), `NotConnectedToServer`; a failed read, `ReadFailed`; no packet,
/// `EmptyPacket`; otherwise the packet.
pub fn read_packet(server_read: Option<ReadOutcome>) -> (r: Result<PacketView, LoginError>)
    ensures
        server_read is None ==> r == Err::<PacketView, LoginError>(LoginError::NotConnectedToServer),
        server_read == Some(ReadOutcome::Failed) ==> r == Err::<PacketView, LoginError>(
            LoginError::ReadFailed,
        ),
        server_read == Some(ReadOutcome::Empty) ==> r == Err::<PacketView, LoginError>(
            LoginError::EmptyPacket,
        ),
        server_read matches Some(ReadOutcome::Packet(p)) ==> r == Ok::<PacketView, LoginError>(p),
{
    match server_read {
        None => Err(LoginError::NotConnectedToServer),
        Some(ReadOutcome::Failed) => Err(LoginError::ReadFailed),
        Some(ReadOutcome::Empty) => Err(LoginError::EmptyPacket),
        Some(ReadOutcome::Packet(p)) => Ok(p),
    }
}

} // verus!
