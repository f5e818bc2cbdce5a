use vstd::prelude::*;

use crate::errors::HandlerError;

verus! {

/// The lifecycle of one established connection.
#[derive(Clone, Copy, Debug, PartialEq, Eq, Structural)]
pub enum SessionState {
    /// Accepting new channels and datagrams.
    Open,
    /// A close notification is being sent; in-flight handlers finish on
    /// their own.
    Draining,
    /// Terminal: the session's resources are released.
    Closed,
}

/// One event the session loop can race while the connection is open.
#[derive(Clone, Copy, Debug, PartialEq, Eq, Structural)]
pub enum SessionEvent {
    /// The shutdown signal fired.
    ShutdownFired,
    /// The peer opened a bidirectional channel.
    InboundBi,
    /// The peer opened a one-way channel.
    InboundUni,
    /// A datagram arrived.
    InboundDatagram,
    /// Accepting a channel or datagram failed terminally.
    AcceptFailed,
}

/// The reason code sent with a close notification.
#[derive(Clone, Copy, Debug, PartialEq, Eq, Structural)]
pub enum CloseReason {
    /// This side is shutting down.
    ShuttingDown,
    /// The peer side ended the connection.
    PeerClosed,
}

/// What the session loop must do after one step.
#[derive(Clone, Copy, Debug, PartialEq, Eq, Structural)]
pub enum SessionAction {
    /// Spawn a request/response handler for the new bidirectional channel.
    SpawnBiHandler,
    /// Spawn a handler for the new one-way channel.
    SpawnUniHandler,
    /// Hand the datagram to the datagram handler.
    DispatchDatagram,
    /// Send the transport a close notification with this reason.
    CloseConnection(CloseReason),
    /// Nothing to do.
    Ignore,
}

/// One step of the session's state machine: from a state and an event to the
/// next state and the action the loop must take. While open, new channels
/// and datagrams are dispatched and the session stays open; the shutdown
/// signal or a terminal accept failure moves it to Draining with a close
/// notification; Draining completes into the terminal Closed state.
pub open spec fn spec_session_step(s: SessionState, e: SessionEvent) -> (SessionState,
    SessionAction) {
    match s {
        SessionState::Open => match e {
            SessionEvent::ShutdownFired => (
                SessionState::Draining,
                SessionAction::CloseConnection(CloseReason::ShuttingDown),
            ),
            SessionEvent::InboundBi => (SessionState::Open, SessionAction::SpawnBiHandler),
            SessionEvent::InboundUni => (SessionState::Open, SessionAction::SpawnUniHandler),
            SessionEvent::InboundDatagram => (
                SessionState::Open,
                SessionAction::DispatchDatagram,
            ),
            SessionEvent::AcceptFailed => (
                SessionState::Draining,
                SessionAction::CloseConnection(CloseReason::PeerClosed),
            ),
        },
        SessionState::Draining => (SessionState::Closed, SessionAction::Ignore),
        SessionState::Closed => (SessionState::Closed, SessionAction::Ignore),
    }
}

/// Drive the session state machine one step.
pub fn session_step(s: SessionState, e: SessionEvent) -> (r: (SessionState, SessionAction))
    ensures
        r == spec_session_step(s, e),
{
    match s {
        SessionState::Open => match e {
            SessionEvent::ShutdownFired => (
                SessionState::Draining,
                SessionAction::CloseConnection(CloseReason::ShuttingDown),
            ),
            SessionEvent::InboundBi => (SessionState::Open, SessionAction::SpawnBiHandler),
            SessionEvent::InboundUni => (SessionState::Open, SessionAction::SpawnUniHandler),
            SessionEvent::InboundDatagram => (
                SessionState::Open,
                SessionAction::DispatchDatagram,
            ),
            SessionEvent::AcceptFailed => (
                SessionState::Draining,
                SessionAction::CloseConnection(CloseReason::PeerClosed),
            ),
        },
        SessionState::Draining => (SessionState::Closed, SessionAction::Ignore),
        SessionState::Closed => (SessionState::Closed, SessionAction::Ignore),
    }
}

/// How far along its lifecycle a state is.
pub open spec fn spec_session_rank(s: SessionState) -> int {
    match s {
        SessionState::Open => 0,
        SessionState::Draining => 1,
        SessionState::Closed => 2,
    }
}

/// The session only moves forward through Open, Draining, Closed, and Closed
/// is terminal: no event leaves it.
pub proof fn lemma_session_monotone(s: SessionState, e: SessionEvent)
    ensures
        spec_session_rank(spec_session_step(s, e).0) >= spec_session_rank(s),
        s == SessionState::Closed ==> spec_session_step(s, e).0 == SessionState::Closed,
{
}

/// The session loop prefers the shutdown signal: whenever it is ready, the
/// step taken is the shutdown step, whatever else is also ready.
pub fn classify_event(shutdown_ready: bool, inbound: SessionEvent) -> (e: SessionEvent)
    ensures
        shutdown_ready ==> e == SessionEvent::ShutdownFired,
        !shutdown_ready ==> e == inbound,
{
    if shutdown_ready {
        SessionEvent::ShutdownFired
    } else {
        inbound
    }
}

/// The bytes of a close notification's reason code.
pub fn reason_text(r: CloseReason) -> (s: &'static str)
    ensures
        r == CloseReason::ShuttingDown ==> s@ == "shutting down"@,
        r == CloseReason::PeerClosed ==> s@ == "peer closed"@,
{
    match r {
        CloseReason::ShuttingDown => "shutting down",
        CloseReason::PeerClosed => "peer closed",
    }
}

/// One event the accept loop can race while the endpoint is listening.
#[derive(Clone, Copy, Debug, PartialEq, Eq, Structural)]
pub enum AcceptorEvent {
    /// The shutdown signal fired.
    ShutdownFired,
    /// A new connection finished its handshake.
    ConnectionArrived,
    /// The endpoint stopped producing connections.
    AcceptEnded,
}

/// What the accept loop must do after one event.
#[derive(Clone, Copy, Debug, PartialEq, Eq, Structural)]
pub enum AcceptorAction {
    /// Spawn a session for the new connection.
    SpawnSession,
    /// Send the endpoint a close notification with this reason.
    CloseEndpoint(CloseReason),
    /// Nothing to do.
    Ignore,
}

/// One step of the accept loop: whether to keep accepting, and what to do.
/// A new connection gets its session and the loop goes on; the shutdown
/// signal closes the endpoint with its reason and ends the loop, as does the
/// endpoint running dry.
pub open spec fn spec_acceptor_step(e: AcceptorEvent) -> (bool, AcceptorAction) {
    match e {
        AcceptorEvent::ShutdownFired => (
            false,
            AcceptorAction::CloseEndpoint(CloseReason::ShuttingDown),
        ),
        AcceptorEvent::ConnectionArrived => (true, AcceptorAction::SpawnSession),
        AcceptorEvent::AcceptEnded => (false, AcceptorAction::Ignore),
    }
}

/// Drive the accept loop one step.
pub fn acceptor_step(e: AcceptorEvent) -> (r: (bool, AcceptorAction))
    ensures
        r == spec_acceptor_step(e),
{
    match e {
        AcceptorEvent::ShutdownFired => (
            false,
            AcceptorAction::CloseEndpoint(CloseReason::ShuttingDown),
        ),
        AcceptorEvent::ConnectionArrived => (true, AcceptorAction::SpawnSession),
        AcceptorEvent::AcceptEnded => (false, AcceptorAction::Ignore),
    }
}

/// The handler for an accepted one-way channel. An extension point with no
/// behaviour yet: it must fail explicitly rather than silently drop the
/// payload, so it always reports NotImplemented.
pub fn handle_uni_channel(_payload: &Vec<u8>) -> (r: Result<(), HandlerError>)
    ensures
        r == Err::<(), HandlerError>(HandlerError::NotImplemented),
{
    Err(HandlerError::NotImplemented)
}

/// The handler for a received datagram. An extension point with no behaviour
/// yet: it must fail explicitly rather than silently drop the payload, so it
/// always reports NotImplemented.
pub fn handle_datagram(_payload: &Vec<u8>) -> (r: Result<(), HandlerError>)
    ensures
        r == Err::<(), HandlerError>(HandlerError::NotImplemented),
{
    Err(HandlerError::NotImplemented)
}

} // verus!
