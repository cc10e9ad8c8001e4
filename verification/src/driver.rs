use vstd::prelude::*;

verus! {

/// The phase of one tunnel iteration. There is no terminal phase: the
/// tunnel restarts from `Connecting` after every cooldown, indefinitely.
#[derive(Clone, Copy, Debug, PartialEq, Eq, Structural)]
pub enum TunnelState {
    /// Opening the transport connection to the fixed remote address.
    Connecting,
    /// Performing the TLS handshake over the open transport.
    Handshaking,
    /// Sending the initial framed greeting over the encrypted channel.
    Greeting,
    /// Relaying bytes in both directions until either direction ends.
    Relaying,
    /// Waiting out the fixed delay before the next attempt.
    Cooldown,
}

/// What the outside work of the current phase reported back.
#[derive(Clone, Copy, Debug, PartialEq, Eq, Structural)]
pub enum TunnelEvent {
    /// The transport connection is open.
    TransportOpened,
    /// The transport connection could not be opened.
    TransportFailed,
    /// The TLS handshake completed.
    HandshakeCompleted,
    /// The TLS handshake failed: certificate rejected, name mismatch,
    /// protocol or transport failure.
    HandshakeFailed,
    /// The greeting was written to the encrypted channel.
    GreetingSent,
    /// Writing the greeting failed.
    GreetingFailed,
    /// The channel-to-output copy finished first, by end-of-stream or
    /// by error; the other direction is abandoned.
    InboundEnded,
    /// The input-to-channel copy finished first and cleanly.
    OutboundCompleted,
    /// The input-to-channel copy finished first, by error.
    OutboundFailed,
    /// The fixed delay has elapsed.
    CooldownElapsed,
}

/// The outside work that the driver must perform next.
#[derive(Clone, Copy, Debug, PartialEq, Eq, Structural)]
pub enum TunnelAction {
    /// Open a transport connection to the remote address.
    OpenTransport,
    /// Upgrade the transport to TLS as a client.
    PerformHandshake,
    /// Write the greeting over the encrypted channel.
    SendGreeting,
    /// Start both copy directions and wait for the first to end.
    RelayTraffic,
    /// Close the encrypted channel's write side to signal end-of-request,
    /// then wait out the fixed delay.
    ShutdownWriteThenWait,
    /// Release the session and wait out the fixed delay.
    Wait,
}

/// The events that the outside work of state `s` can report.
pub open spec fn event_fits(s: TunnelState, e: TunnelEvent) -> bool {
    match s {
        TunnelState::Connecting => e is TransportOpened || e is TransportFailed,
        TunnelState::Handshaking => e is HandshakeCompleted || e is HandshakeFailed,
        TunnelState::Greeting => e is GreetingSent || e is GreetingFailed,
        TunnelState::Relaying => e is InboundEnded || e is OutboundCompleted
            || e is OutboundFailed,
        TunnelState::Cooldown => e is CooldownElapsed,
    }
}

/// Whether the event reports a failure of the current phase's work.
pub open spec fn is_failure_event(e: TunnelEvent) -> bool {
    e is TransportFailed || e is HandshakeFailed || e is GreetingFailed || e is OutboundFailed
}

/// The transition table of the tunnel: phases advance in the fixed order
/// connect, handshake, greet, relay; every failure, and the end of a
/// relay, leads to the cooldown; the cooldown leads back to connecting.
pub open spec fn step_spec(s: TunnelState, e: TunnelEvent) -> (TunnelState, TunnelAction) {
    match (s, e) {
        (TunnelState::Connecting, TunnelEvent::TransportOpened) => (
            TunnelState::Handshaking,
            TunnelAction::PerformHandshake,
        ),
        (TunnelState::Handshaking, TunnelEvent::HandshakeCompleted) => (
            TunnelState::Greeting,
            TunnelAction::SendGreeting,
        ),
        (TunnelState::Greeting, TunnelEvent::GreetingSent) => (
            TunnelState::Relaying,
            TunnelAction::RelayTraffic,
        ),
        (TunnelState::Relaying, TunnelEvent::OutboundCompleted) => (
            TunnelState::Cooldown,
            TunnelAction::ShutdownWriteThenWait,
        ),
        (TunnelState::Relaying, TunnelEvent::InboundEnded) => (
            TunnelState::Cooldown,
            TunnelAction::Wait,
        ),
        (TunnelState::Cooldown, TunnelEvent::CooldownElapsed) => (
            TunnelState::Connecting,
            TunnelAction::OpenTransport,
        ),
        _ => (TunnelState::Cooldown, TunnelAction::Wait),
    }
}

/// The state the tunnel starts in, and the action that starts it.
pub fn initial() -> (r: (TunnelState, TunnelAction))
    ensures
        r == (TunnelState::Connecting, TunnelAction::OpenTransport),
{
    (TunnelState::Connecting, TunnelAction::OpenTransport)
}

/// Advance the tunnel by one step: from the current phase and what its
/// outside work reported, decide the next phase and the next work. The
/// function is total; an event that does not belong to the phase is
/// treated as a failure of the iteration, releasing the session.
pub fn step(s: TunnelState, e: TunnelEvent) -> (r: (TunnelState, TunnelAction))
    ensures
        r == step_spec(s, e),
{
    match (s, e) {
        (TunnelState::Connecting, TunnelEvent::TransportOpened) => (
            TunnelState::Handshaking,
            TunnelAction::PerformHandshake,
        ),
        (TunnelState::Handshaking, TunnelEvent::HandshakeCompleted) => (
            TunnelState::Greeting,
            TunnelAction::SendGreeting,
        ),
        (TunnelState::Greeting, TunnelEvent::GreetingSent) => (
            TunnelState::Relaying,
            TunnelAction::RelayTraffic,
        ),
        (TunnelState::Relaying, TunnelEvent::OutboundCompleted) => (
            TunnelState::Cooldown,
            TunnelAction::ShutdownWriteThenWait,
        ),
        (TunnelState::Relaying, TunnelEvent::InboundEnded) => (
            TunnelState::Cooldown,
            TunnelAction::Wait,
        ),
        (TunnelState::Cooldown, TunnelEvent::CooldownElapsed) => (
            TunnelState::Connecting,
            TunnelAction::OpenTransport,
        ),
        _ => (TunnelState::Cooldown, TunnelAction::Wait),
    }
}

/// The fixed delay between iterations, in milliseconds: constant, with no
/// exponential backoff.
pub fn cooldown_millis() -> (r: u64)
    ensures
        r == 15000,
{
    15000
}

/// Every failure is recoverable: whatever phase its work failed in, the
/// tunnel releases the session and waits, rather than stopping.
pub proof fn lemma_failure_cools_down(s: TunnelState, e: TunnelEvent)
    requires
        event_fits(s, e),
        is_failure_event(e),
    ensures
        step_spec(s, e) == (TunnelState::Cooldown, TunnelAction::Wait),
{
}

/// The tunnel never halts: every phase has an event of its own, and every
/// step leaves the tunnel in a phase with an event of its own — in
/// particular, after each cooldown a new connection attempt begins.
pub proof fn lemma_no_terminal_state(s: TunnelState, e: TunnelEvent)
    requires
        event_fits(s, e),
    ensures
        exists|e2: TunnelEvent| event_fits(step_spec(s, e).0, e2),
        step_spec(TunnelState::Cooldown, TunnelEvent::CooldownElapsed) == (
            TunnelState::Connecting,
            TunnelAction::OpenTransport,
        ),
{
    let next = step_spec(s, e).0;
    if next is Cooldown {
        assert(event_fits(next, TunnelEvent::CooldownElapsed));
    } else if next is Connecting {
        assert(event_fits(next, TunnelEvent::TransportOpened));
    } else if next is Handshaking {
        assert(event_fits(next, TunnelEvent::HandshakeCompleted));
    } else if next is Greeting {
        assert(event_fits(next, TunnelEvent::GreetingSent));
    } else {
        assert(event_fits(next, TunnelEvent::InboundEnded));
    }
}

} // verus!
