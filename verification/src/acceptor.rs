//! The acceptor's decisions: what to do on each event of the transport and
//! of the handshakes in flight. The caller performs the actions and reports
//! the events; the decisions never wait.
use vstd::prelude::*;
use std::collections::HashSet;
use crate::config::ClientAuthMode;

verus! {

broadcast use vstd::std_specs::hash::group_hash_axioms;

/// Where the accept loop stands.
#[derive(Clone, Copy, Debug, PartialEq, Eq, Structural)]
pub enum Phase {
    /// Not yet bound to the transport.
    Idle,
    /// Taking transport connections.
    Listening,
    /// The transport failed or was closed; no new connection is taken.
    Stopped,
}

/// Why a handshake failed.
#[derive(Clone, Copy, Debug, PartialEq, Eq, Structural)]
pub enum HandshakeFailure {
    /// The peer sent bytes that are no TLS record.
    MalformedRecord,
    /// The peer's certificate was missing or did not verify.
    CertificateRejected,
    /// No application protocol could be agreed on.
    NegotiationMismatch,
    /// The peer closed the connection during the handshake.
    PeerClosed,
    /// The handshake did not finish in the time allowed.
    Timeout,
}

/// What happened outside.
#[derive(Clone, Copy, Debug, PartialEq, Eq, Structural)]
pub enum Event {
    /// The transport listener is bound.
    Bound,
    /// The transport delivered the connection with this number.
    Transport(u64),
    /// The transport failed or was closed.
    TransportFailed,
    /// The handshake on this connection finished.
    HandshakeDone(u64),
    /// The handshake on this connection failed.
    HandshakeFailed(u64, HandshakeFailure),
    /// The time allowed for the handshake on this connection ran out.
    TimedOut(u64),
}

/// What the caller is to do.
#[derive(Clone, Copy, Debug, PartialEq, Eq, Structural)]
pub enum Action {
    /// Wait for the next transport connection.
    Listen,
    /// Start the handshake on this connection as work of its own, then go
    /// on listening.
    StartHandshake(u64),
    /// Hand the secured stream of this connection to the caller.
    Yield(u64),
    /// Drop this connection, record the failure and go on.
    Report(u64, HandshakeFailure),
    /// Surface the transport's error and stop taking connections.
    Stop,
    /// Nothing: the event concerns no connection in flight, or comes out of
    /// turn.
    Ignore,
}

/// The mathematical value of an [`Acceptor`]: its phase and the connections
/// whose handshake is in flight.
pub struct AcceptorView {
    pub phase: Phase,
    pub handshaking: Set<u64>,
}

/// The state of the accept loop.
pub struct Acceptor {
    phase: Phase,
    handshaking: HashSet<u64>,
}

impl View for Acceptor {
    type V = AcceptorView;

    closed spec fn view(&self) -> AcceptorView {
        AcceptorView { phase: self.phase, handshaking: self.handshaking@ }
    }
}

/// The action that an event calls for in a state.
pub open spec fn action_on(state: AcceptorView, event: Event) -> Action {
    match event {
        Event::Bound => if state.phase == Phase::Idle {
            Action::Listen
        } else {
            Action::Ignore
        },
        Event::Transport(id) => if state.phase == Phase::Listening && !state.handshaking.contains(id) {
            Action::StartHandshake(id)
        } else {
            Action::Ignore
        },
        Event::TransportFailed => if state.phase == Phase::Listening {
            Action::Stop
        } else {
            Action::Ignore
        },
        Event::HandshakeDone(id) => if state.handshaking.contains(id) {
            Action::Yield(id)
        } else {
            Action::Ignore
        },
        Event::HandshakeFailed(id, failure) => if state.handshaking.contains(id) {
            Action::Report(id, failure)
        } else {
            Action::Ignore
        },
        Event::TimedOut(id) => if state.handshaking.contains(id) {
            Action::Report(id, HandshakeFailure::Timeout)
        } else {
            Action::Ignore
        },
    }
}

/// The state that follows an event.
pub open spec fn state_after(state: AcceptorView, event: Event) -> AcceptorView {
    match action_on(state, event) {
        Action::Listen => AcceptorView { phase: Phase::Listening, handshaking: state.handshaking },
        Action::StartHandshake(id) => AcceptorView {
            phase: state.phase,
            handshaking: state.handshaking.insert(id),
        },
        Action::Yield(id) => AcceptorView {
            phase: state.phase,
            handshaking: state.handshaking.remove(id),
        },
        Action::Report(id, _) => AcceptorView {
            phase: state.phase,
            handshaking: state.handshaking.remove(id),
        },
        Action::Stop => AcceptorView { phase: Phase::Stopped, handshaking: state.handshaking },
        Action::Ignore => state,
    }
}

impl Acceptor {
    /// An idle acceptor without any handshake in flight.
    pub fn new() -> (r: Self)
        ensures
            r@ == (AcceptorView { phase: Phase::Idle, handshaking: Set::empty() }),
    {
        Acceptor { phase: Phase::Idle, handshaking: HashSet::new() }
    }

    /// Where the accept loop stands.
    pub fn phase(&self) -> (r: Phase)
        ensures
            r == self@.phase,
    {
        self.phase
    }

    /// Whether the handshake on this connection is in flight.
    pub fn is_handshaking(&self, id: u64) -> (r: bool)
        ensures
            r == self@.handshaking.contains(id),
    {
        self.handshaking.contains(&id)
    }

    /// How many handshakes are in flight.
    pub fn in_flight(&self) -> (r: usize)
        ensures
            r == self@.handshaking.len(),
    {
        self.handshaking.len()
    }

    /// Ends the handshake on a connection; says whether it was in flight.
    fn finish(&mut self, id: u64) -> (r: bool)
        ensures
            r == old(self)@.handshaking.contains(id),
            final(self)@.phase == old(self)@.phase,
            final(self)@.handshaking == old(self)@.handshaking.remove(id),
            !r ==> final(self)@ == old(self)@,
    {
        let was = self.handshaking.remove(&id);
        assert(self.handshaking@ =~= old(self).handshaking@.remove(id));
        assert(!was ==> self.handshaking@ =~= old(self).handshaking@);
        was
    }

    /// Takes one event and says what to do.
    ///
    /// A failed or timed-out handshake ends that connection alone: the
    /// phase is kept, and so is every other handshake in flight. Only a
    /// failure of the transport stops the loop, and the handshakes in
    /// flight then still finish or fail one by one.
    pub fn step(&mut self, event: Event) -> (action: Action)
        ensures
            action == action_on(old(self)@, event),
            final(self)@ == state_after(old(self)@, event),
    {
        match event {
            Event::Bound => {
                if self.phase == Phase::Idle {
                    self.phase = Phase::Listening;
                    Action::Listen
                } else {
                    Action::Ignore
                }
            },
            Event::Transport(id) => {
                if self.phase == Phase::Listening && !self.handshaking.contains(&id) {
                    self.handshaking.insert(id);
                    Action::StartHandshake(id)
                } else {
                    Action::Ignore
                }
            },
            Event::TransportFailed => {
                if self.phase == Phase::Listening {
                    self.phase = Phase::Stopped;
                    Action::Stop
                } else {
                    Action::Ignore
                }
            },
            Event::HandshakeDone(id) => {
                if self.finish(id) {
                    Action::Yield(id)
                } else {
                    Action::Ignore
                }
            },
            Event::HandshakeFailed(id, failure) => {
                if self.finish(id) {
                    Action::Report(id, failure)
                } else {
                    Action::Ignore
                }
            },
            Event::TimedOut(id) => {
                if self.finish(id) {
                    Action::Report(id, HandshakeFailure::Timeout)
                } else {
                    Action::Ignore
                }
            },
        }
    }
}

/// What the peer presented as its certificate.
#[derive(Clone, Copy, Debug, PartialEq, Eq, Structural)]
pub enum PeerCertificate {
    /// No certificate.
    Absent,
    /// A chain that verifies against the trust anchors.
    Verified,
    /// A chain that does not verify.
    Invalid,
}

/// How a peer is let in.
#[derive(Clone, Copy, Debug, PartialEq, Eq, Structural)]
pub enum Admission {
    /// The handshake fails.
    Rejected,
    /// The peer is let in without an identity.
    Anonymous,
    /// The peer is let in under the identity of its certificate.
    Authenticated,
}

/// The admission that a client-auth mode gives to what a peer presented.
pub open spec fn admission(mode: ClientAuthMode, peer: PeerCertificate) -> Admission {
    match mode {
        ClientAuthMode::Off => Admission::Anonymous,
        ClientAuthMode::Optional => match peer {
            PeerCertificate::Absent => Admission::Anonymous,
            PeerCertificate::Verified => Admission::Authenticated,
            PeerCertificate::Invalid => Admission::Rejected,
        },
        ClientAuthMode::Required => match peer {
            PeerCertificate::Verified => Admission::Authenticated,
            _ => Admission::Rejected,
        },
    }
}

/// Decides whether a peer is let in. Without client authentication no
/// certificate is asked for and every peer is anonymous; a chain that does
/// not verify is never let in where one is asked for.
pub fn decide_admission(mode: ClientAuthMode, peer: PeerCertificate) -> (r: Admission)
    ensures
        r == admission(mode, peer),
{
    match mode {
        ClientAuthMode::Off => Admission::Anonymous,
        ClientAuthMode::Optional => match peer {
            PeerCertificate::Absent => Admission::Anonymous,
            PeerCertificate::Verified => Admission::Authenticated,
            PeerCertificate::Invalid => Admission::Rejected,
        },
        ClientAuthMode::Required => match peer {
            PeerCertificate::Verified => Admission::Authenticated,
            PeerCertificate::Absent => Admission::Rejected,
            PeerCertificate::Invalid => Admission::Rejected,
        },
    }
}

/// A peer without a certificate is rejected where one is required, and let
/// in without an identity where none is asked for or one is optional.
pub proof fn law_no_certificate(mode: ClientAuthMode)
    ensures
        mode == ClientAuthMode::Required ==> admission(mode, PeerCertificate::Absent)
            == Admission::Rejected,
        mode != ClientAuthMode::Required ==> admission(mode, PeerCertificate::Absent)
            == Admission::Anonymous,
{
}

/// A handshake that runs out of time is reported as a timeout, and the
/// acceptor goes on as before: it is still listening, and the next
/// transport connection has its handshake started.
pub proof fn law_timeout_keeps_listening(state: AcceptorView, stalled: u64, next: u64)
    requires
        state.phase == Phase::Listening,
        state.handshaking.contains(stalled),
        !state.handshaking.contains(next),
    ensures
        action_on(state, Event::TimedOut(stalled)) == Action::Report(stalled, HandshakeFailure::Timeout),
        state_after(state, Event::TimedOut(stalled)).phase == Phase::Listening,
        !state_after(state, Event::TimedOut(stalled)).handshaking.contains(stalled),
        action_on(state_after(state, Event::TimedOut(stalled)), Event::Transport(next))
            == Action::StartHandshake(next),
{
}

/// The end of one handshake, by success, failure or timeout, leaves every
/// other handshake in flight, and that one then finishes as it would have
/// without the first.
pub proof fn law_handshakes_independent(state: AcceptorView, stalled: u64, other: u64, failure: HandshakeFailure)
    requires
        state.handshaking.contains(stalled),
        state.handshaking.contains(other),
        stalled != other,
    ensures
        state_after(state, Event::TimedOut(stalled)).handshaking.contains(other),
        state_after(state, Event::HandshakeFailed(stalled, failure)).handshaking.contains(other),
        state_after(state, Event::HandshakeDone(stalled)).handshaking.contains(other),
        action_on(state_after(state, Event::TimedOut(stalled)), Event::HandshakeDone(other))
            == Action::Yield(other),
        action_on(state_after(state, Event::HandshakeFailed(stalled, failure)), Event::HandshakeDone(other))
            == Action::Yield(other),
        state_after(state_after(state, Event::TimedOut(stalled)), Event::HandshakeDone(other))
            =~= state_after(state_after(state, Event::HandshakeDone(other)), Event::TimedOut(stalled)),
{
    let a = state_after(state_after(state, Event::TimedOut(stalled)), Event::HandshakeDone(other));
    let b = state_after(state_after(state, Event::HandshakeDone(other)), Event::TimedOut(stalled));
    assert(a.handshaking =~= b.handshaking);
}

/// No event but a failure of the transport ends the listening, and no
/// event of a handshake changes the phase.
pub proof fn law_only_transport_stops(state: AcceptorView, event: Event)
    requires
        state.phase == Phase::Listening,
    ensures
        state_after(state, event).phase == Phase::Stopped <==> event == Event::TransportFailed,
        event != Event::TransportFailed ==> state_after(state, event).phase == Phase::Listening,
{
}

} // verus!
