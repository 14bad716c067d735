//! The handshake that opens every connection, as a state machine.
//!
//! On a connection to a client (`ClientBound`), the handshake reads the
//! client's handshake packet and switches the connection to the state it asks
//! for. On a connection to a server (`ServerBound`), it writes a handshake
//! packet and then either a status request or a login start, switching the
//! connection's state in between. The caller performs each action that the
//! machine returns and feeds back what came of it.

use vstd::prelude::*;
use crate::packet::{
    NextState, OutPacket, OutPacketModel, PacketDirection, PacketModel, ProtocolState,
    ReadOutcome, ReadOutcomeModel, PROTOCOL_VERSION,
};

verus! {

/// Why a handshake failed.
#[derive(Clone, Copy, Debug, PartialEq, Eq, Structural)]
pub enum HandshakeError {
    /// Reading the client's first packet failed; that read error is the
    /// handshake's error.
    ReadFailed,
    /// The client's first packet was missing or was not a handshake
    /// ("Did not receive handshake packet.").
    NotHandshake,
    /// Writing a packet failed; that write error is the handshake's error.
    WriteFailed,
    /// A login handshake without a player name ("Username cannot be empty when
    /// next_state is Login.").
    MissingName,
    /// A handshake to a server without a next state ("Cannot handshake as a
    /// client without specifying what the next state is.").
    MissingNextState,
}

/// Where a handshake stands: what it waits for.
#[derive(Clone, Copy, Debug, PartialEq, Eq, Structural)]
pub enum HandshakeStep {
    /// Not begun.
    Start,
    /// Waiting for the client's first packet.
    AwaitFirstPacket,
    /// Waiting for the connection to enter the state the client asked for.
    AwaitServerState(ProtocolState),
    /// Waiting for the handshake packet to be written.
    AwaitHandshakeWritten,
    /// Waiting for the connection to enter the status state.
    AwaitStatusState,
    /// Waiting for the status request to be written.
    AwaitStatusRequestWritten,
    /// Waiting for the connection to enter the login state.
    AwaitLoginState,
    /// Waiting for the login start packet to be written.
    AwaitLoginStartWritten,
    /// Finished.
    Done,
}

/// What the caller reports to the handshake.
#[derive(Clone, Debug, PartialEq, Eq)]
pub enum HandshakeEvent {
    /// Begin the handshake.
    Begin,
    /// The outcome of the read that the handshake asked for.
    Read(ReadOutcome),
    /// Whether the write that the handshake asked for succeeded.
    Written(bool),
    /// The connection entered the state that the handshake asked for.
    StateSet,
}

/// The mathematical view of a `HandshakeEvent`.
pub enum HandshakeEventModel {
    Begin,
    Read(ReadOutcomeModel),
    Written(bool),
    StateSet,
}

impl View for HandshakeEvent {
    type V = HandshakeEventModel;

    open spec fn view(&self) -> HandshakeEventModel {
        match self {
            HandshakeEvent::Begin => HandshakeEventModel::Begin,
            HandshakeEvent::Read(r) => HandshakeEventModel::Read(r@),
            HandshakeEvent::Written(ok) => HandshakeEventModel::Written(*ok),
            HandshakeEvent::StateSet => HandshakeEventModel::StateSet,
        }
    }
}

/// What the handshake asks the caller to do next.
#[derive(Debug, PartialEq, Eq)]
pub enum HandshakeAction {
    /// Read the next packet from the connection.
    ReadPacket,
    /// Write this packet to the connection.
    Write(OutPacket),
    /// Switch the connection (its reader and its writer) to this state.
    SetState(ProtocolState),
    /// The handshake is over, with this result.
    Finish(Result<ProtocolState, HandshakeError>),
}

/// The mathematical view of a `HandshakeAction`.
pub enum HandshakeActionModel {
    ReadPacket,
    Write(OutPacketModel),
    SetState(ProtocolState),
    Finish(Result<ProtocolState, HandshakeError>),
}

impl View for HandshakeAction {
    type V = HandshakeActionModel;

    open spec fn view(&self) -> HandshakeActionModel {
        match self {
            HandshakeAction::ReadPacket => HandshakeActionModel::ReadPacket,
            HandshakeAction::Write(p) => HandshakeActionModel::Write(p@),
            HandshakeAction::SetState(s) => HandshakeActionModel::SetState(*s),
            HandshakeAction::Finish(r) => HandshakeActionModel::Finish(*r),
        }
    }
}

/// A handshake in progress.
///
/// * `direction`: `ClientBound` on a connection to a client (a server's side),
///   `ServerBound` on a connection to a server (a client's side).
/// * `next_state`: the state to enter after the handshake; unused on the
///   server's side.
/// * `name`: the player's name for a login; unused on the server's side and
///   for a status request.
/// * `server_address`, `server_port`: where the connection goes, written into
///   the handshake packet.
pub struct Handshake {
    pub direction: PacketDirection,
    pub next_state: Option<NextState>,
    pub name: Option<String>,
    pub server_address: String,
    pub server_port: u16,
    pub step: HandshakeStep,
}

/// The mathematical view of a `Handshake`.
pub struct HandshakeModel {
    pub direction: PacketDirection,
    pub next_state: Option<NextState>,
    pub name: Option<Seq<char>>,
    pub server_address: Seq<char>,
    pub server_port: u16,
    pub step: HandshakeStep,
}

impl View for Handshake {
    type V = HandshakeModel;

    open spec fn view(&self) -> HandshakeModel {
        HandshakeModel {
            direction: self.direction,
            next_state: self.next_state,
            name: match self.name {
                Some(n) => Some(n@),
                None => None,
            },
            server_address: self.server_address@,
            server_port: self.server_port,
            step: self.step,
        }
    }
}

/// Whether a handshake at `step` can take `e`: each step waits for one kind of
/// report, and a finished handshake takes none.
pub open spec fn handshake_accepts(step: HandshakeStep, e: HandshakeEventModel) -> bool {
    match step {
        HandshakeStep::Start => e is Begin,
        HandshakeStep::AwaitFirstPacket => e is Read,
        HandshakeStep::AwaitServerState(_) | HandshakeStep::AwaitStatusState
        | HandshakeStep::AwaitLoginState => e is StateSet,
        HandshakeStep::AwaitHandshakeWritten | HandshakeStep::AwaitStatusRequestWritten
        | HandshakeStep::AwaitLoginStartWritten => e is Written,
        HandshakeStep::Done => false,
    }
}

/// `h` moved to `step`.
pub open spec fn at(h: HandshakeModel, step: HandshakeStep) -> HandshakeModel {
    HandshakeModel { step, ..h }
}

/// `h` finished with `r`.
pub open spec fn finish(h: HandshakeModel, r: Result<ProtocolState, HandshakeError>) -> (
    HandshakeModel,
    HandshakeActionModel,
) {
    (at(h, HandshakeStep::Done), HandshakeActionModel::Finish(r))
}

/// The protocol state that a handshake's next state names.
pub open spec fn entered(n: NextState) -> ProtocolState {
    match n {
        NextState::Status => ProtocolState::Status,
        NextState::Login => ProtocolState::Login,
    }
}

/// The next step of a handshake and what it asks for, given a report that it
/// accepts.
pub open spec fn handshake_next(h: HandshakeModel, e: HandshakeEventModel) -> (
    HandshakeModel,
    HandshakeActionModel,
) {
    match h.step {
        HandshakeStep::Start => if h.direction == PacketDirection::ClientBound {
            (at(h, HandshakeStep::AwaitFirstPacket), HandshakeActionModel::ReadPacket)
        } else {
            match h.next_state {
                None => finish(h, Err(HandshakeError::MissingNextState)),
                Some(n) => (
                    at(h, HandshakeStep::AwaitHandshakeWritten),
                    HandshakeActionModel::Write(
                        OutPacketModel::Handshake {
                            version: PROTOCOL_VERSION,
                            server_address: h.server_address,
                            server_port: h.server_port,
                            next_state: n,
                        },
                    ),
                ),
            }
        },
        HandshakeStep::AwaitFirstPacket => match e {
            HandshakeEventModel::Read(ReadOutcomeModel::Packet(PacketModel::Handshake { next_state })) => (
                at(h, HandshakeStep::AwaitServerState(entered(next_state))),
                HandshakeActionModel::SetState(entered(next_state)),
            ),
            HandshakeEventModel::Read(ReadOutcomeModel::Failed) => finish(
                h,
                Err(HandshakeError::ReadFailed),
            ),
            _ => finish(h, Err(HandshakeError::NotHandshake)),
        },
        HandshakeStep::AwaitServerState(s) => finish(h, Ok(s)),
        HandshakeStep::AwaitHandshakeWritten => if e == HandshakeEventModel::Written(true) {
            if h.next_state == Some(NextState::Status) {
                (
                    at(h, HandshakeStep::AwaitStatusState),
                    HandshakeActionModel::SetState(ProtocolState::Status),
                )
            } else {
                (
                    at(h, HandshakeStep::AwaitLoginState),
                    HandshakeActionModel::SetState(ProtocolState::Login),
                )
            }
        } else {
            finish(h, Err(HandshakeError::WriteFailed))
        },
        HandshakeStep::AwaitStatusState => (
            at(h, HandshakeStep::AwaitStatusRequestWritten),
            HandshakeActionModel::Write(OutPacketModel::StatusRequest),
        ),
        HandshakeStep::AwaitStatusRequestWritten => if e == HandshakeEventModel::Written(true) {
            finish(h, Ok(ProtocolState::Status))
        } else {
            finish(h, Err(HandshakeError::WriteFailed))
        },
        HandshakeStep::AwaitLoginState => match h.name {
            Some(n) => (
                at(h, HandshakeStep::AwaitLoginStartWritten),
                HandshakeActionModel::Write(OutPacketModel::LoginStart { name: n }),
            ),
            None => finish(h, Err(HandshakeError::MissingName)),
        },
        HandshakeStep::AwaitLoginStartWritten => if e == HandshakeEventModel::Written(true) {
            finish(h, Ok(ProtocolState::Login))
        } else {
            finish(h, Err(HandshakeError::WriteFailed))
        },
        HandshakeStep::Done => (h, HandshakeActionModel::Finish(Err(HandshakeError::NotHandshake))),
    }
}

/// How far a handshake has come; every report moves it further.
pub open spec fn handshake_rank(step: HandshakeStep) -> nat {
    match step {
        HandshakeStep::Start => 0,
        HandshakeStep::AwaitFirstPacket | HandshakeStep::AwaitHandshakeWritten => 1,
        HandshakeStep::AwaitServerState(_) | HandshakeStep::AwaitStatusState
        | HandshakeStep::AwaitLoginState => 2,
        HandshakeStep::AwaitStatusRequestWritten | HandshakeStep::AwaitLoginStartWritten => 3,
        HandshakeStep::Done => 4,
    }
}

/// Every report moves a handshake forward, and it finishes exactly when it
/// reaches `Done`: so it finishes after at most four reports.
pub proof fn lemma_handshake_progress(h: HandshakeModel, e: HandshakeEventModel)
    requires
        handshake_accepts(h.step, e),
    ensures
        handshake_rank(handshake_next(h, e).0.step) > handshake_rank(h.step),
        handshake_rank(handshake_next(h, e).0.step) <= 4,
        handshake_next(h, e).1 is Finish <==> handshake_next(h, e).0.step == HandshakeStep::Done,
{
}

/// A handshake changes nothing but its step: direction, next state, name,
/// address and port stay as they were given.
pub proof fn lemma_handshake_keeps_request(h: HandshakeModel, e: HandshakeEventModel)
    requires
        handshake_accepts(h.step, e),
    ensures
        at(h, handshake_next(h, e).0.step) == handshake_next(h, e).0,
{
}

/// Whether `h` is at a step of its own side: a handshake on a connection to a
/// client only ever waits for the client's packet or for the state it asked
/// for; one on a connection to a server never does.
pub open spec fn handshake_on_its_side(h: HandshakeModel) -> bool {
    let server_side = h.step is AwaitFirstPacket || h.step is AwaitServerState;
    let client_side = h.step is AwaitHandshakeWritten || h.step is AwaitStatusState
        || h.step is AwaitStatusRequestWritten || h.step is AwaitLoginState
        || h.step is AwaitLoginStartWritten;
    &&& h.direction == PacketDirection::ClientBound ==> !client_side
    &&& h.direction == PacketDirection::ServerBound ==> !server_side
}

/// On a connection to a client the handshake only reads, never writes; on a
/// connection to a server it only writes, never reads. Every step keeps the
/// handshake on its side.
pub proof fn lemma_handshake_direction(h: HandshakeModel, e: HandshakeEventModel)
    requires
        handshake_accepts(h.step, e),
        handshake_on_its_side(h),
    ensures
        handshake_on_its_side(handshake_next(h, e).0),
        h.direction == PacketDirection::ClientBound ==> !(handshake_next(h, e).1 is Write),
        h.direction == PacketDirection::ServerBound ==> !(handshake_next(h, e).1 is ReadPacket),
{
}

/// On a connection to a client, the handshake's course depends on nothing that
/// its caller asked for: the next state and the name are not used.
pub proof fn lemma_server_side_ignores_request(
    h: HandshakeModel,
    e: HandshakeEventModel,
    next_state: Option<NextState>,
    name: Option<Seq<char>>,
)
    requires
        h.direction == PacketDirection::ClientBound,
        handshake_on_its_side(h),
        handshake_accepts(h.step, e),
    ensures
        handshake_next(HandshakeModel { next_state, name, ..h }, e).1 == handshake_next(h, e).1,
        handshake_next(HandshakeModel { next_state, name, ..h }, e).0.step == handshake_next(
            h,
            e,
        ).0.step,
{
}

/// On a connection to a server, the handshake packet written first announces
/// exactly the next state the handshake was made with, to the address and port
/// it was made with, in this library's protocol version; once it is written,
/// the connection enters that state (status for a status request, login for a
/// login).
pub proof fn lemma_client_handshake_announces_next_state(h: HandshakeModel, n: NextState)
    requires
        h.direction == PacketDirection::ServerBound,
        h.step == HandshakeStep::Start,
        h.next_state == Some(n),
    ensures
        handshake_next(h, HandshakeEventModel::Begin).1 == HandshakeActionModel::Write(
            OutPacketModel::Handshake {
                version: PROTOCOL_VERSION,
                server_address: h.server_address,
                server_port: h.server_port,
                next_state: n,
            },
        ),
        handshake_next(h, HandshakeEventModel::Begin).0.step == HandshakeStep::AwaitHandshakeWritten,
        n == NextState::Status ==> handshake_next(
            handshake_next(h, HandshakeEventModel::Begin).0,
            HandshakeEventModel::Written(true),
        ).1 == HandshakeActionModel::SetState(ProtocolState::Status),
        n == NextState::Login ==> handshake_next(
            handshake_next(h, HandshakeEventModel::Begin).0,
            HandshakeEventModel::Written(true),
        ).1 == HandshakeActionModel::SetState(ProtocolState::Login),
        n == NextState::Status ==> handshake_next(
            handshake_next(
                handshake_next(h, HandshakeEventModel::Begin).0,
                HandshakeEventModel::Written(true),
            ).0,
            HandshakeEventModel::StateSet,
        ).1 == HandshakeActionModel::Write(OutPacketModel::StatusRequest),
{
}

/// On a connection to a client, the state the connection enters is the one the
/// client's handshake packet asks for: status for a status request, login for
/// a login.
pub proof fn lemma_server_handshake_enters_requested_state(
    h: HandshakeModel,
    n: NextState,
)
    requires
        h.step == HandshakeStep::AwaitFirstPacket,
    ensures
        n == NextState::Status ==> handshake_next(
            h,
            HandshakeEventModel::Read(
                ReadOutcomeModel::Packet(PacketModel::Handshake { next_state: n }),
            ),
        ).1 == HandshakeActionModel::SetState(ProtocolState::Status),
        n == NextState::Login ==> handshake_next(
            h,
            HandshakeEventModel::Read(
                ReadOutcomeModel::Packet(PacketModel::Handshake { next_state: n }),
            ),
        ).1 == HandshakeActionModel::SetState(ProtocolState::Login),
{
}

/// A login handshake to a server follows its announcement with a login start
/// that carries exactly the player's name and, once that is written, succeeds
/// with the login state; without a name it fails once the connection is in the
/// login state. A status handshake succeeds with the status state once its
/// status request is written. Any failed write fails the handshake.
pub proof fn lemma_client_handshake_completes(h: HandshakeModel)
    requires
        h.direction == PacketDirection::ServerBound,
    ensures
        h.step == HandshakeStep::AwaitLoginState ==> (match h.name {
            Some(name) => handshake_next(h, HandshakeEventModel::StateSet).1
                == HandshakeActionModel::Write(OutPacketModel::LoginStart { name }),
            None => handshake_next(h, HandshakeEventModel::StateSet).1
                == HandshakeActionModel::Finish(Err(HandshakeError::MissingName)),
        }),
        h.step == HandshakeStep::AwaitLoginStartWritten ==> handshake_next(
            h,
            HandshakeEventModel::Written(true),
        ).1 == HandshakeActionModel::Finish(Ok(ProtocolState::Login)),
        h.step == HandshakeStep::AwaitStatusRequestWritten ==> handshake_next(
            h,
            HandshakeEventModel::Written(true),
        ).1 == HandshakeActionModel::Finish(Ok(ProtocolState::Status)),
        (h.step == HandshakeStep::AwaitHandshakeWritten || h.step
            == HandshakeStep::AwaitStatusRequestWritten || h.step
            == HandshakeStep::AwaitLoginStartWritten) ==> handshake_next(
            h,
            HandshakeEventModel::Written(false),
        ).1 == HandshakeActionModel::Finish(Err(HandshakeError::WriteFailed)),
        h.step == HandshakeStep::Start && h.next_state is None ==> handshake_next(
            h,
            HandshakeEventModel::Begin,
        ).1 == HandshakeActionModel::Finish(Err(HandshakeError::MissingNextState)),
{
}

/// The steps and actions of a handshake that begins at `h` and takes `events`
/// in order.
pub open spec fn handshake_run(h: HandshakeModel, events: Seq<HandshakeEventModel>) -> (
    HandshakeModel,
    Seq<HandshakeActionModel>,
)
    decreases events.len(),
{
    if events.len() == 0 {
        (h, Seq::empty())
    } else {
        let (before, actions) = handshake_run(h, events.drop_last());
        let (after, a) = handshake_next(before, events.last());
        (after, actions.push(a))
    }
}

/// Whether a handshake that begins at `h` accepts each of `events` in turn.
pub open spec fn handshake_run_accepted(h: HandshakeModel, events: Seq<HandshakeEventModel>) -> bool
    decreases events.len(),
{
    events.len() == 0 || (handshake_run_accepted(h, events.drop_last()) && handshake_accepts(
        handshake_run(h, events.drop_last()).0.step,
        events.last(),
    ))
}

/// The state that the last `SetState` among `actions` asked for, if any.
pub open spec fn last_state_set(actions: Seq<HandshakeActionModel>) -> Option<ProtocolState>
    decreases actions.len(),
{
    if actions.len() == 0 {
        None
    } else {
        match actions.last() {
            HandshakeActionModel::SetState(s) => Some(s),
            _ => last_state_set(actions.drop_last()),
        }
    }
}

/// The state the connection was last asked to enter, for a handshake at `step`.
pub open spec fn state_so_far(step: HandshakeStep) -> Option<ProtocolState> {
    match step {
        HandshakeStep::AwaitServerState(s) => Some(s),
        HandshakeStep::AwaitStatusState | HandshakeStep::AwaitStatusRequestWritten => Some(
            ProtocolState::Status,
        ),
        HandshakeStep::AwaitLoginState | HandshakeStep::AwaitLoginStartWritten => Some(
            ProtocolState::Login,
        ),
        _ => None,
    }
}

proof fn lemma_handshake_run_invariant(h: HandshakeModel, events: Seq<HandshakeEventModel>)
    requires
        h.step == HandshakeStep::Start,
        handshake_run_accepted(h, events),
    ensures
        handshake_run(h, events).0.step != HandshakeStep::Done ==> last_state_set(
            handshake_run(h, events).1,
        ) == state_so_far(handshake_run(h, events).0.step),
        forall|s: ProtocolState|
            handshake_run(h, events).1.len() > 0 && handshake_run(h, events).1.last()
                == HandshakeActionModel::Finish(Ok(s)) ==> last_state_set(
                handshake_run(h, events).1,
            ) == Some(s),
    decreases events.len(),
{
    if events.len() > 0 {
        lemma_handshake_run_invariant(h, events.drop_last());
        let (before, actions) = handshake_run(h, events.drop_last());
        let (after, a) = handshake_next(before, events.last());
        assert(handshake_run(h, events).1 == actions.push(a));
        assert(actions.push(a).drop_last() == actions);
        if events.len() == 1 {
            assert(events.drop_last().len() == 0);
            assert(before == h);
        }
        if before.step == HandshakeStep::Done {
            assert(false);
        }
    }
}

/// When a handshake succeeds, the state it returns is the state that it last
/// switched the connection to.
pub proof fn lemma_handshake_returns_state_set(
    h: HandshakeModel,
    events: Seq<HandshakeEventModel>,
    s: ProtocolState,
)
    requires
        h.step == HandshakeStep::Start,
        handshake_run_accepted(h, events),
        handshake_run(h, events).1.len() > 0,
        handshake_run(h, events).1.last() == HandshakeActionModel::Finish(Ok(s)),
    ensures
        last_state_set(handshake_run(h, events).1) == Some(s),
{
    lemma_handshake_run_invariant(h, events);
}

fn entered_state(n: NextState) -> (s: ProtocolState)
    ensures
        s == entered(n),
{
    match n {
        NextState::Status => ProtocolState::Status,
        NextState::Login => ProtocolState::Login,
    }
}

impl Handshake {
    /// A handshake that has not begun.
    pub fn new(
        direction: PacketDirection,
        next_state: Option<NextState>,
        name: Option<String>,
        server_address: String,
        server_port: u16,
    ) -> (h: Handshake)
        ensures
            h.direction == direction,
            h.next_state == next_state,
            h.name == name,
            h.server_address == server_address,
            h.server_port == server_port,
            h.step == HandshakeStep::Start,
    {
        Handshake { direction, next_state, name, server_address, server_port, step: HandshakeStep::Start }
    }

    fn finish(&mut self, r: Result<ProtocolState, HandshakeError>) -> (a: HandshakeAction)
        ensures
            (final(self)@, a@) == finish(old(self)@, r),
    {
        self.step = HandshakeStep::Done;
        HandshakeAction::Finish(r)
    }

    /// Takes the caller's report of what came of the last action, moves the
    /// handshake on, and returns the next action.
    pub fn step(&mut self, event: HandshakeEvent) -> (a: HandshakeAction)
        requires
            handshake_accepts(old(self).step, event@),
        ensures
            (final(self)@, a@) == handshake_next(old(self)@, event@),
    {
        match self.step {
            HandshakeStep::Start => {
                if self.direction == PacketDirection::ClientBound {
                    self.step = HandshakeStep::AwaitFirstPacket;
                    HandshakeAction::ReadPacket
                } else {
                    match self.next_state {
                        None => self.finish(Err(HandshakeError::MissingNextState)),
                        Some(n) => {
                            self.step = HandshakeStep::AwaitHandshakeWritten;
                            HandshakeAction::Write(
                                OutPacket::Handshake {
                                    version: PROTOCOL_VERSION,
                                    server_address: self.server_address.clone(),
                                    server_port: self.server_port,
                                    next_state: n,
                                },
                            )
                        },
                    }
                }
            },
            HandshakeStep::AwaitFirstPacket => match event {
                HandshakeEvent::Read(ReadOutcome::Packet(crate::packet::PacketView::Handshake { next_state })) => {
                    let s = entered_state(next_state);
                    self.step = HandshakeStep::AwaitServerState(s);
                    HandshakeAction::SetState(s)
                },
                HandshakeEvent::Read(ReadOutcome::Failed) => self.finish(Err(HandshakeError::ReadFailed)),
                _ => self.finish(Err(HandshakeError::NotHandshake)),
            },
            HandshakeStep::AwaitServerState(s) => self.finish(Ok(s)),
            HandshakeStep::AwaitHandshakeWritten => {
                if let HandshakeEvent::Written(true) = event {
                    if self.next_state == Some(NextState::Status) {
                        self.step = HandshakeStep::AwaitStatusState;
                        HandshakeAction::SetState(ProtocolState::Status)
                    } else {
                        self.step = HandshakeStep::AwaitLoginState;
                        HandshakeAction::SetState(ProtocolState::Login)
                    }
                } else {
                    self.finish(Err(HandshakeError::WriteFailed))
                }
            },
            HandshakeStep::AwaitStatusState => {
                self.step = HandshakeStep::AwaitStatusRequestWritten;
                HandshakeAction::Write(OutPacket::StatusRequest)
            },
            HandshakeStep::AwaitStatusRequestWritten => {
                if let HandshakeEvent::Written(true) = event {
                    self.finish(Ok(ProtocolState::Status))
                } else {
                    self.finish(Err(HandshakeError::WriteFailed))
                }
            },
            HandshakeStep::AwaitLoginState => match &self.name {
                Some(n) => {
                    let name = n.clone();
                    self.step = HandshakeStep::AwaitLoginStartWritten;
                    HandshakeAction::Write(OutPacket::LoginStart { name })
                },
                None => self.finish(Err(HandshakeError::MissingName)),
            },
            HandshakeStep::AwaitLoginStartWritten => {
                if let HandshakeEvent::Written(true) = event {
                    self.finish(Ok(ProtocolState::Login))
                } else {
                    self.finish(Err(HandshakeError::WriteFailed))
                }
            },
            HandshakeStep::Done => HandshakeAction::Finish(Err(HandshakeError::NotHandshake)),
        }
    }
}

} // verus!
