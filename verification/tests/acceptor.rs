use tls_acceptor::acceptor::{
    decide_admission, Acceptor, Action, Admission, Event, HandshakeFailure, PeerCertificate, Phase,
};
use tls_acceptor::config::ClientAuthMode;

#[test]
fn new_acceptor_is_idle() {
    let acceptor = Acceptor::new();
    assert_eq!(acceptor.phase(), Phase::Idle);
    assert_eq!(acceptor.in_flight(), 0);
    assert!(!acceptor.is_handshaking(0));
}

#[test]
fn idle_acceptor_takes_no_connection() {
    let mut acceptor = Acceptor::new();
    assert_eq!(acceptor.step(Event::Transport(1)), Action::Ignore);
    assert_eq!(acceptor.step(Event::TransportFailed), Action::Ignore);
    assert_eq!(acceptor.phase(), Phase::Idle);
    assert_eq!(acceptor.step(Event::Bound), Action::Listen);
    assert_eq!(acceptor.phase(), Phase::Listening);
    assert_eq!(acceptor.step(Event::Bound), Action::Ignore);
}

#[test]
fn connection_is_secured_and_yielded() {
    let mut acceptor = Acceptor::new();
    acceptor.step(Event::Bound);
    assert_eq!(acceptor.step(Event::Transport(7)), Action::StartHandshake(7));
    assert!(acceptor.is_handshaking(7));
    assert_eq!(acceptor.step(Event::Transport(7)), Action::Ignore);
    assert_eq!(acceptor.step(Event::HandshakeDone(7)), Action::Yield(7));
    assert!(!acceptor.is_handshaking(7));
    assert_eq!(acceptor.step(Event::HandshakeDone(7)), Action::Ignore);
    assert_eq!(acceptor.phase(), Phase::Listening);
}

#[test]
fn failed_handshake_does_not_stop_the_loop() {
    let mut acceptor = Acceptor::new();
    acceptor.step(Event::Bound);
    acceptor.step(Event::Transport(1));
    assert_eq!(
        acceptor.step(Event::HandshakeFailed(1, HandshakeFailure::CertificateRejected)),
        Action::Report(1, HandshakeFailure::CertificateRejected)
    );
    assert_eq!(acceptor.phase(), Phase::Listening);
    assert_eq!(acceptor.in_flight(), 0);
    assert_eq!(acceptor.step(Event::Transport(2)), Action::StartHandshake(2));
    assert_eq!(
        acceptor.step(Event::HandshakeFailed(9, HandshakeFailure::MalformedRecord)),
        Action::Ignore
    );
}

#[test]
fn timeout_is_reported_and_listening_goes_on() {
    let mut acceptor = Acceptor::new();
    acceptor.step(Event::Bound);
    acceptor.step(Event::Transport(1));
    assert_eq!(acceptor.step(Event::TimedOut(1)), Action::Report(1, HandshakeFailure::Timeout));
    assert_eq!(acceptor.phase(), Phase::Listening);
    assert_eq!(acceptor.step(Event::HandshakeDone(1)), Action::Ignore);
    assert_eq!(acceptor.step(Event::TimedOut(1)), Action::Ignore);
    assert_eq!(acceptor.step(Event::Transport(2)), Action::StartHandshake(2));
    assert_eq!(acceptor.step(Event::HandshakeDone(2)), Action::Yield(2));
}

#[test]
fn stalled_handshake_leaves_the_others_alone() {
    let mut acceptor = Acceptor::new();
    acceptor.step(Event::Bound);
    for id in 0..8u64 {
        assert_eq!(acceptor.step(Event::Transport(id)), Action::StartHandshake(id));
    }
    assert_eq!(acceptor.in_flight(), 8);
    assert_eq!(acceptor.step(Event::HandshakeDone(5)), Action::Yield(5));
    assert_eq!(acceptor.step(Event::TimedOut(3)), Action::Report(3, HandshakeFailure::Timeout));
    for id in [7u64, 0, 6, 1, 2, 4] {
        assert!(acceptor.is_handshaking(id));
        assert_eq!(acceptor.step(Event::HandshakeDone(id)), Action::Yield(id));
    }
    assert_eq!(acceptor.in_flight(), 0);
    assert_eq!(acceptor.phase(), Phase::Listening);
}

#[test]
fn transport_failure_stops_and_handshakes_still_finish() {
    let mut acceptor = Acceptor::new();
    acceptor.step(Event::Bound);
    acceptor.step(Event::Transport(1));
    acceptor.step(Event::Transport(2));
    assert_eq!(acceptor.step(Event::TransportFailed), Action::Stop);
    assert_eq!(acceptor.phase(), Phase::Stopped);
    assert_eq!(acceptor.step(Event::Transport(3)), Action::Ignore);
    assert_eq!(acceptor.step(Event::TransportFailed), Action::Ignore);
    assert_eq!(acceptor.step(Event::HandshakeDone(1)), Action::Yield(1));
    assert_eq!(
        acceptor.step(Event::HandshakeFailed(2, HandshakeFailure::PeerClosed)),
        Action::Report(2, HandshakeFailure::PeerClosed)
    );
    assert_eq!(acceptor.phase(), Phase::Stopped);
}

#[test]
fn admission_without_certificate() {
    assert_eq!(decide_admission(ClientAuthMode::Required, PeerCertificate::Absent), Admission::Rejected);
    assert_eq!(decide_admission(ClientAuthMode::Off, PeerCertificate::Absent), Admission::Anonymous);
    assert_eq!(decide_admission(ClientAuthMode::Optional, PeerCertificate::Absent), Admission::Anonymous);
}

#[test]
fn admission_with_certificate() {
    assert_eq!(decide_admission(ClientAuthMode::Required, PeerCertificate::Verified), Admission::Authenticated);
    assert_eq!(decide_admission(ClientAuthMode::Optional, PeerCertificate::Verified), Admission::Authenticated);
    assert_eq!(decide_admission(ClientAuthMode::Off, PeerCertificate::Verified), Admission::Anonymous);
    assert_eq!(decide_admission(ClientAuthMode::Required, PeerCertificate::Invalid), Admission::Rejected);
    assert_eq!(decide_admission(ClientAuthMode::Optional, PeerCertificate::Invalid), Admission::Rejected);
    assert_eq!(decide_admission(ClientAuthMode::Off, PeerCertificate::Invalid), Admission::Anonymous);
}
