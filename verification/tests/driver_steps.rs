use rustls_client::{cooldown_millis, initial, step, TunnelAction, TunnelEvent, TunnelState};

#[test]
fn driver_starts_by_connecting() {
    assert_eq!(initial(), (TunnelState::Connecting, TunnelAction::OpenTransport));
}

#[test]
fn happy_path_visits_every_phase_in_order() {
    let (s, a) = initial();
    assert_eq!(a, TunnelAction::OpenTransport);
    let (s, a) = step(s, TunnelEvent::TransportOpened);
    assert_eq!((s, a), (TunnelState::Handshaking, TunnelAction::PerformHandshake));
    let (s, a) = step(s, TunnelEvent::HandshakeCompleted);
    assert_eq!((s, a), (TunnelState::Greeting, TunnelAction::SendGreeting));
    let (s, a) = step(s, TunnelEvent::GreetingSent);
    assert_eq!((s, a), (TunnelState::Relaying, TunnelAction::RelayTraffic));
    let (s, a) = step(s, TunnelEvent::InboundEnded);
    assert_eq!((s, a), (TunnelState::Cooldown, TunnelAction::Wait));
    let (s, a) = step(s, TunnelEvent::CooldownElapsed);
    assert_eq!((s, a), (TunnelState::Connecting, TunnelAction::OpenTransport));
}

#[test]
fn clean_outbound_end_shuts_the_write_side_down() {
    let (s, a) = step(TunnelState::Relaying, TunnelEvent::OutboundCompleted);
    assert_eq!(s, TunnelState::Cooldown);
    assert_eq!(a, TunnelAction::ShutdownWriteThenWait);
}

#[test]
fn failed_outbound_copy_skips_the_shutdown() {
    let (s, a) = step(TunnelState::Relaying, TunnelEvent::OutboundFailed);
    assert_eq!((s, a), (TunnelState::Cooldown, TunnelAction::Wait));
}

#[test]
fn every_failure_leads_to_cooldown() {
    let failures = vec![
        (TunnelState::Connecting, TunnelEvent::TransportFailed),
        (TunnelState::Handshaking, TunnelEvent::HandshakeFailed),
        (TunnelState::Greeting, TunnelEvent::GreetingFailed),
        (TunnelState::Relaying, TunnelEvent::OutboundFailed),
    ];
    for (s, e) in failures {
        assert_eq!(step(s, e), (TunnelState::Cooldown, TunnelAction::Wait));
    }
}

#[test]
fn cooldown_delay_is_constant() {
    assert_eq!(cooldown_millis(), 15000);
    assert_eq!(cooldown_millis(), cooldown_millis());
}

#[test]
fn repeated_handshake_failures_retry_indefinitely() {
    let (mut s, mut a) = initial();
    for _ in 0..100 {
        assert_eq!(a, TunnelAction::OpenTransport);
        let (s2, a2) = step(s, TunnelEvent::TransportOpened);
        assert_eq!(a2, TunnelAction::PerformHandshake);
        let (s3, a3) = step(s2, TunnelEvent::HandshakeFailed);
        assert_eq!((s3, a3), (TunnelState::Cooldown, TunnelAction::Wait));
        let (s4, a4) = step(s3, TunnelEvent::CooldownElapsed);
        assert_eq!(s4, TunnelState::Connecting);
        s = s4;
        a = a4;
    }
}
