use vstd::prelude::*;

verus! {

/// What the proxy's accept loop and its per-stream tasks learn.
#[derive(Debug, Clone, Copy, PartialEq, Eq, Structural)]
pub enum SessionEvent {
    /// The acceptor handed over a TCP stream and its target.
    AcceptedTcp,
    /// The acceptor handed over a UDP association.
    AcceptedUdp,
    /// The acceptor failed.
    AcceptFailed,
    /// The connector opened the outbound TCP stream.
    TcpConnected,
    /// The connector opened the outbound UDP association.
    UdpConnected,
    /// The connector failed to open the outbound side.
    ConnectFailed,
}

/// What the proxy does next.
#[derive(Debug, Clone, Copy, PartialEq, Eq, Structural)]
pub enum SessionAction {
    /// Open an outbound TCP stream to the accepted stream's target.
    ConnectTcp,
    /// Open an outbound UDP association.
    ConnectUdp,
    /// Relay between the accepted and the outbound TCP streams.
    RelayTcp,
    /// Relay between the accepted and the outbound UDP associations.
    RelayUdp,
    /// Log the failure; the accept loop goes on.
    LogError,
}

/// The action the proxy takes on `event`.
pub open spec fn session_action(event: SessionEvent) -> SessionAction {
    match event {
        SessionEvent::AcceptedTcp => SessionAction::ConnectTcp,
        SessionEvent::AcceptedUdp => SessionAction::ConnectUdp,
        SessionEvent::AcceptFailed => SessionAction::LogError,
        SessionEvent::TcpConnected => SessionAction::RelayTcp,
        SessionEvent::UdpConnected => SessionAction::RelayUdp,
        SessionEvent::ConnectFailed => SessionAction::LogError,
    }
}

/// The proxy's decision on an event of its accept loop or of a stream's task.
pub fn session_step(event: SessionEvent) -> (action: SessionAction)
    ensures
        action == session_action(event),
{
    match event {
        SessionEvent::AcceptedTcp => SessionAction::ConnectTcp,
        SessionEvent::AcceptedUdp => SessionAction::ConnectUdp,
        SessionEvent::AcceptFailed => SessionAction::LogError,
        SessionEvent::TcpConnected => SessionAction::RelayTcp,
        SessionEvent::UdpConnected => SessionAction::RelayUdp,
        SessionEvent::ConnectFailed => SessionAction::LogError,
    }
}

/// Every accepted stream is connected out over the same transport, and once
/// connected it is relayed over that transport; a failure is logged and
/// never ends the proxy (no action stops the accept loop).
pub proof fn lemma_session_follows_transport(event: SessionEvent)
    ensures
        event == SessionEvent::AcceptedTcp ==> session_action(event) == SessionAction::ConnectTcp,
        event == SessionEvent::AcceptedUdp ==> session_action(event) == SessionAction::ConnectUdp,
        event == SessionEvent::TcpConnected ==> session_action(event) == SessionAction::RelayTcp,
        event == SessionEvent::UdpConnected ==> session_action(event) == SessionAction::RelayUdp,
        (event == SessionEvent::AcceptFailed || event == SessionEvent::ConnectFailed)
            <==> session_action(event) == SessionAction::LogError,
{
}

} // verus!
