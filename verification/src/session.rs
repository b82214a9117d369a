//! The life of one forwarded connection, as a state machine.
//!
//! A session goes from `Init` through the choice of a pod, the resolution of
//! the port and the opening of the tunnel to the relay, and ends `Closed`.
//! Whoever runs the connection reports each thing that happened as an event;
//! the session answers with what is to be done next.

use crate::abort::{tripped, AbortSignal};
use futures::stream::{AbortHandle, AbortRegistration};
use vstd::prelude::*;

verus! {

/// Why a relay came to its end.
#[derive(Clone, Copy, Debug, PartialEq, Eq, Structural)]
pub enum TerminationReason {
    /// The copy ended by itself, before the watcher had anything to say.
    /// Whether it ended well is recorded apart, as a failure or none.
    NormalCompletion,
    /// The watcher ended first: the pod was no longer seen ready.
    ReadinessTriggered,
}

/// The step at which a connection failed.
#[derive(Clone, Copy, Debug, PartialEq, Eq, Structural)]
pub enum ConnectionFailure {
    /// No pod could be chosen.
    NoReadyPod,
    /// The port specification denotes no port on the chosen pod.
    PortNotFound,
    /// The tunnel to the pod could not be opened.
    TunnelFailed,
    /// The copy between client and tunnel failed.
    CopyFailed,
    /// The tunnel could not be released in good order.
    JoinFailed,
    /// The copy failed, and then the tunnel could not be released in good
    /// order either.
    CopyAndJoinFailed,
}

/// The part of the relay that a session is in.
#[derive(Clone, Copy, Debug, PartialEq, Eq, Structural)]
pub enum RelayStage {
    /// The copy runs, and the watcher beside it where there is one.
    Copying,
    /// The watcher has ended first; the copy is left to run out.
    Draining,
    /// The copy has ended, well or not; the tunnel is being released.
    Joining,
}

/// The state of a session.
#[derive(Clone, Copy, Debug, PartialEq, Eq, Structural)]
pub enum ConnectionState {
    Init,
    PodSelected,
    PortResolved,
    TunnelEstablished,
    Relaying(RelayStage),
    Closed,
}

/// Something that happened to a connection.
#[derive(Clone, Copy, Debug, PartialEq, Eq)]
pub enum ConnectionEvent {
    /// A pod was looked for, and found or not.
    PodSelection { found: bool },
    /// The port was looked for on the pod, and found or not.
    PortResolution { found: bool },
    /// The tunnel was asked for, and opened or not.
    TunnelOpened { ok: bool },
    /// The copy was started, and the watcher where there is one.
    RelayStarted,
    /// The copy has ended: with the bytes sent up and down, or with an
    /// error.
    CopyFinished { bytes: Option<(u64, u64)> },
    /// The watcher has ended.
    WatcherFinished,
    /// The release of the tunnel has ended, well or not.
    Joined { ok: bool },
}

/// What is to be done for a connection.
#[derive(Clone, Copy, Debug, PartialEq, Eq)]
pub enum ConnectionAction {
    /// Nothing: the event does not concern the session as it stands.
    Ignore,
    /// Resolve the port on the chosen pod.
    ResolvePort,
    /// Open the tunnel to the chosen pod and port.
    OpenTunnel,
    /// Start the copy: over the bare streams, or, guarded, over cancelable
    /// streams bound to the abort signal, with the watcher beside it.
    StartRelay { guarded: bool },
    /// Wait for the copy, or the watcher, to end.
    Await,
    /// Say that the connection closes because the pod is no longer ready,
    /// and wait for the copy to run out.
    AnnounceUnready,
    /// Release the tunnel. This follows every copy, however it ended.
    JoinTunnel,
    /// The connection has ended well: release both streams and report the
    /// bytes sent up and down.
    Report { up: u64, down: u64 },
    /// The connection has failed: release both streams and report why.
    Release { failure: ConnectionFailure },
}

/// The mathematical value of a session.
pub struct SessionView {
    pub state: ConnectionState,
    /// Whether the relay is to end when the pod stops being ready.
    pub close_on_unready: bool,
    /// Whether the abort signal of the connection has been tripped.
    pub tripped: bool,
    /// Why the relay came to its end, once it has.
    pub reason: Option<TerminationReason>,
    /// The bytes that the copy sent up and down, once it has ended well.
    pub bytes: Option<(u64, u64)>,
    /// The step at which the connection failed, if it has.
    pub failure: Option<ConnectionFailure>,
    /// The registration on the flag of the abort signal, where the relay is
    /// guarded: what the cancelable streams and the watcher of the
    /// connection are bound to.
    pub flag: Option<AbortRegistration>,
    /// The handle on the same flag by which the session trips the signal,
    /// where the relay is guarded.
    pub handle: Option<AbortHandle>,
}

/// A session that has not begun, with the two sides `flag` and `handle` of
/// the flag of its abort signal where it is guarded.
pub open spec fn initial(flag: Option<AbortRegistration>, handle: Option<AbortHandle>) -> SessionView {
    SessionView {
        state: ConnectionState::Init,
        close_on_unready: flag is Some,
        tripped: false,
        reason: None,
        bytes: None,
        failure: None,
        flag,
        handle,
    }
}

/// The session whose copy has failed: the failure is kept, and the tunnel is
/// still to be released.
pub open spec fn copy_failed(v: SessionView) -> SessionView {
    SessionView {
        state: ConnectionState::Relaying(RelayStage::Joining),
        failure: Some(ConnectionFailure::CopyFailed),
        ..v
    }
}

/// The session closed by a failure.
pub open spec fn failed(v: SessionView, failure: ConnectionFailure) -> SessionView {
    SessionView { state: ConnectionState::Closed, failure: Some(failure), ..v }
}

/// The session after whichever of copy and watcher ended first: the reason
/// is recorded, and the abort signal, where there is one, is tripped,
/// whoever ended first.
pub open spec fn decided(v: SessionView, reason: TerminationReason) -> SessionView {
    SessionView { reason: Some(reason), tripped: v.tripped || v.close_on_unready, ..v }
}

/// The session after an event, and what is to be done then.
///
/// Whichever of copy and watcher ends first, and however the copy ends, the
/// tunnel is released before the session closes; a copy that failed is
/// reported then, together with the release if that failed as well.
/// An event that does not fit the state changes nothing and is ignored; so
/// is every event once the session is closed.
pub open spec fn next(v: SessionView, event: ConnectionEvent) -> (SessionView, ConnectionAction) {
    match (v.state, event) {
        (ConnectionState::Init, ConnectionEvent::PodSelection { found }) => if found {
            (SessionView { state: ConnectionState::PodSelected, ..v }, ConnectionAction::ResolvePort)
        } else {
            (
                failed(v, ConnectionFailure::NoReadyPod),
                ConnectionAction::Release { failure: ConnectionFailure::NoReadyPod },
            )
        },
        (ConnectionState::PodSelected, ConnectionEvent::PortResolution { found }) => if found {
            (SessionView { state: ConnectionState::PortResolved, ..v }, ConnectionAction::OpenTunnel)
        } else {
            (
                failed(v, ConnectionFailure::PortNotFound),
                ConnectionAction::Release { failure: ConnectionFailure::PortNotFound },
            )
        },
        (ConnectionState::PortResolved, ConnectionEvent::TunnelOpened { ok }) => if ok {
            (
                SessionView { state: ConnectionState::TunnelEstablished, ..v },
                ConnectionAction::StartRelay { guarded: v.close_on_unready },
            )
        } else {
            (
                failed(v, ConnectionFailure::TunnelFailed),
                ConnectionAction::Release { failure: ConnectionFailure::TunnelFailed },
            )
        },
        (ConnectionState::TunnelEstablished, ConnectionEvent::RelayStarted) => (
            SessionView { state: ConnectionState::Relaying(RelayStage::Copying), ..v },
            ConnectionAction::Await,
        ),
        (
            ConnectionState::Relaying(RelayStage::Copying),
            ConnectionEvent::CopyFinished { bytes },
        ) => {
            let w = decided(v, TerminationReason::NormalCompletion);
            match bytes {
                Some(counts) => (
                    SessionView {
                        state: ConnectionState::Relaying(RelayStage::Joining),
                        bytes: Some(counts),
                        ..w
                    },
                    ConnectionAction::JoinTunnel,
                ),
                None => (copy_failed(w), ConnectionAction::JoinTunnel),
            }
        },
        (ConnectionState::Relaying(RelayStage::Copying), ConnectionEvent::WatcherFinished) => if v.close_on_unready {
            (
                SessionView {
                    state: ConnectionState::Relaying(RelayStage::Draining),
                    ..decided(v, TerminationReason::ReadinessTriggered)
                },
                ConnectionAction::AnnounceUnready,
            )
        } else {
            (v, ConnectionAction::Ignore)
        },
        (
            ConnectionState::Relaying(RelayStage::Draining),
            ConnectionEvent::CopyFinished { bytes },
        ) => match bytes {
            Some(counts) => (
                SessionView {
                    state: ConnectionState::Relaying(RelayStage::Joining),
                    bytes: Some(counts),
                    ..v
                },
                ConnectionAction::JoinTunnel,
            ),
            None => (copy_failed(v), ConnectionAction::JoinTunnel),
        },
        (
            ConnectionState::Relaying(RelayStage::Joining),
            ConnectionEvent::Joined { ok },
        ) => match v.failure {
            Some(_) => {
                let failure = if ok {
                    ConnectionFailure::CopyFailed
                } else {
                    ConnectionFailure::CopyAndJoinFailed
                };
                (failed(v, failure), ConnectionAction::Release { failure })
            },
            None => match v.bytes {
                Some((up, down)) if ok => (
                    SessionView { state: ConnectionState::Closed, ..v },
                    ConnectionAction::Report { up, down },
                ),
                _ => (
                    failed(v, ConnectionFailure::JoinFailed),
                    ConnectionAction::Release { failure: ConnectionFailure::JoinFailed },
                ),
            },
        },
        _ => (v, ConnectionAction::Ignore),
    }
}

/// Whether the parts of a session fit together, as they do in every session
/// that began as [`initial`] and went on by [`next`].
pub open spec fn consistent(v: SessionView) -> bool {
    &&& v.flag is Some <==> v.close_on_unready
    &&& v.handle is Some <==> v.close_on_unready
    &&& v.tripped ==> v.close_on_unready && v.reason is Some
    &&& v.failure is Some ==> v.state == ConnectionState::Closed || (v.state
        == ConnectionState::Relaying(RelayStage::Joining) && v.failure == Some(
        ConnectionFailure::CopyFailed,
    ))
    &&& match v.state {
        ConnectionState::Relaying(RelayStage::Draining) => v.reason == Some(
            TerminationReason::ReadinessTriggered,
        ) && v.tripped && v.bytes is None,
        ConnectionState::Relaying(RelayStage::Joining) => v.reason is Some && (v.bytes is Some
            <==> v.failure is None) && (v.close_on_unready ==> v.tripped),
        ConnectionState::Closed => v.reason is Some ==> (v.close_on_unready ==> v.tripped),
        _ => v.reason is None && v.bytes is None,
    }
}

/// The session after a run of events.
pub open spec fn run(v: SessionView, events: Seq<ConnectionEvent>) -> SessionView
    decreases events.len(),
{
    if events.len() == 0 {
        v
    } else {
        next(run(v, events.drop_last()), events.last()).0
    }
}

/// Trips the abort signal, where there is one.
fn trip_if_any(signal: &mut Option<AbortSignal>)
    ensures
        *final(signal) is Some <==> *old(signal) is Some,
        *final(signal) matches Some(after) ==> after@ == tripped(old(signal)->0@),
{
    match signal {
        Some(signal) => {
            signal.trip();
        },
        None => {},
    }
}

/// One forwarded connection.
///
/// Its relay is guarded exactly if it has an abort signal.
pub struct ConnectionSession {
    state: ConnectionState,
    reason: Option<TerminationReason>,
    bytes: Option<(u64, u64)>,
    failure: Option<ConnectionFailure>,
    signal: Option<AbortSignal>,
}

impl ConnectionSession {
    /// The mathematical value of the session.
    pub closed spec fn view(&self) -> SessionView {
        SessionView {
            state: self.state,
            close_on_unready: self.signal is Some,
            tripped: match self.signal {
                Some(signal) => signal@.tripped,
                None => false,
            },
            reason: self.reason,
            bytes: self.bytes,
            failure: self.failure,
            flag: match self.signal {
                Some(signal) => Some(signal@.registration),
                None => None,
            },
            handle: match self.signal {
                Some(signal) => Some(signal@.handle),
                None => None,
            },
        }
    }

    /// A session that has not begun. Its abort signal, where it has one,
    /// belongs to it alone.
    pub fn new(close_on_unready: bool) -> (session: Self)
        ensures
            session@ == initial(session@.flag, session@.handle),
            session@.handle is Some <==> close_on_unready,
            session@.close_on_unready == close_on_unready,
    {
        let signal = if close_on_unready {
            Some(AbortSignal::new())
        } else {
            None
        };
        ConnectionSession {
            state: ConnectionState::Init,
            reason: None,
            bytes: None,
            failure: None,
            signal,
        }
    }

    /// The state of the session.
    pub fn state(&self) -> (state: ConnectionState)
        ensures
            state == self@.state,
    {
        self.state
    }

    /// Whether the relay is to end when the pod stops being ready.
    pub fn close_on_unready(&self) -> (guarded: bool)
        ensures
            guarded == self@.close_on_unready,
    {
        self.signal.is_some()
    }

    /// Whether the abort signal of the connection has been tripped.
    pub fn is_tripped(&self) -> (tripped: bool)
        ensures
            tripped == self@.tripped,
    {
        match &self.signal {
            Some(signal) => signal.is_tripped(),
            None => false,
        }
    }

    /// Why the relay came to its end, once it has.
    pub fn reason(&self) -> (reason: Option<TerminationReason>)
        ensures
            reason == self@.reason,
    {
        self.reason
    }

    /// The bytes that the copy sent up and down, once it has ended well.
    pub fn bytes(&self) -> (bytes: Option<(u64, u64)>)
        ensures
            bytes == self@.bytes,
    {
        self.bytes
    }

    /// The step at which the connection failed, if it has.
    pub fn failure(&self) -> (failure: Option<ConnectionFailure>)
        ensures
            failure == self@.failure,
    {
        self.failure
    }

    /// The registration by which the cancelable streams and the watcher of
    /// this connection bind themselves to its abort signal; none where the
    /// relay is not guarded.
    pub fn registration(&self) -> (registration: Option<&AbortRegistration>)
        ensures
            registration is Some <==> self@.close_on_unready,
            match registration {
                Some(registration) => self@.flag == Some(*registration),
                None => self@.flag is None,
            },
    {
        match &self.signal {
            Some(signal) => Some(signal.registration()),
            None => None,
        }
    }

    /// Records which of copy and watcher ended first, and trips the abort
    /// signal where there is one.
    fn decide(&mut self, reason: TerminationReason)
        ensures
            final(self)@ == decided(old(self)@, reason),
    {
        self.reason = Some(reason);
        trip_if_any(&mut self.signal);
    }

    /// Closes the session on a failure.
    fn fail(&mut self, failure: ConnectionFailure) -> (action: ConnectionAction)
        ensures
            final(self)@ == failed(old(self)@, failure),
            action == (ConnectionAction::Release { failure }),
    {
        self.state = ConnectionState::Closed;
        self.failure = Some(failure);
        ConnectionAction::Release { failure }
    }

    /// Keeps the failure of the copy and asks for the release of the tunnel.
    fn copy_failed(&mut self) -> (action: ConnectionAction)
        ensures
            final(self)@ == copy_failed(old(self)@),
            action == ConnectionAction::JoinTunnel,
    {
        self.state = ConnectionState::Relaying(RelayStage::Joining);
        self.failure = Some(ConnectionFailure::CopyFailed);
        ConnectionAction::JoinTunnel
    }

    /// Takes note of an event and says what is to be done next. The flag of
    /// the abort signal stays the one that the session began with.
    pub fn step(&mut self, event: ConnectionEvent) -> (action: ConnectionAction)
        ensures
            (final(self)@, action) == next(old(self)@, event),
    {
        match (self.state, event) {
            (ConnectionState::Init, ConnectionEvent::PodSelection { found }) => {
                if found {
                    self.state = ConnectionState::PodSelected;
                    ConnectionAction::ResolvePort
                } else {
                    self.fail(ConnectionFailure::NoReadyPod)
                }
            },
            (ConnectionState::PodSelected, ConnectionEvent::PortResolution { found }) => {
                if found {
                    self.state = ConnectionState::PortResolved;
                    ConnectionAction::OpenTunnel
                } else {
                    self.fail(ConnectionFailure::PortNotFound)
                }
            },
            (ConnectionState::PortResolved, ConnectionEvent::TunnelOpened { ok }) => {
                if ok {
                    self.state = ConnectionState::TunnelEstablished;
                    ConnectionAction::StartRelay { guarded: self.signal.is_some() }
                } else {
                    self.fail(ConnectionFailure::TunnelFailed)
                }
            },
            (ConnectionState::TunnelEstablished, ConnectionEvent::RelayStarted) => {
                self.state = ConnectionState::Relaying(RelayStage::Copying);
                ConnectionAction::Await
            },
            (
                ConnectionState::Relaying(RelayStage::Copying),
                ConnectionEvent::CopyFinished { bytes },
            ) => {
                self.decide(TerminationReason::NormalCompletion);
                match bytes {
                    Some(counts) => {
                        self.state = ConnectionState::Relaying(RelayStage::Joining);
                        self.bytes = Some(counts);
                        ConnectionAction::JoinTunnel
                    },
                    None => self.copy_failed(),
                }
            },
            (ConnectionState::Relaying(RelayStage::Copying), ConnectionEvent::WatcherFinished) => {
                if self.signal.is_some() {
                    self.decide(TerminationReason::ReadinessTriggered);
                    self.state = ConnectionState::Relaying(RelayStage::Draining);
                    ConnectionAction::AnnounceUnready
                } else {
                    ConnectionAction::Ignore
                }
            },
            (
                ConnectionState::Relaying(RelayStage::Draining),
                ConnectionEvent::CopyFinished { bytes },
            ) => {
                match bytes {
                    Some(counts) => {
                        self.state = ConnectionState::Relaying(RelayStage::Joining);
                        self.bytes = Some(counts);
                        ConnectionAction::JoinTunnel
                    },
                    None => self.copy_failed(),
                }
            },
            (ConnectionState::Relaying(RelayStage::Joining), ConnectionEvent::Joined { ok }) => {
                match (self.failure, ok, self.bytes) {
                    (Some(_), true, _) => self.fail(ConnectionFailure::CopyFailed),
                    (Some(_), false, _) => self.fail(ConnectionFailure::CopyAndJoinFailed),
                    (None, true, Some((up, down))) => {
                        self.state = ConnectionState::Closed;
                        ConnectionAction::Report { up, down }
                    },
                    _ => self.fail(ConnectionFailure::JoinFailed),
                }
            },
            _ => ConnectionAction::Ignore,
        }
    }
}

/// Every session that has not begun is consistent, and every event leaves a
/// consistent session consistent.
pub proof fn lemma_consistent(
    v: SessionView,
    event: ConnectionEvent,
    flag: AbortRegistration,
    handle: AbortHandle,
)
    ensures
        consistent(initial(None, None)),
        consistent(initial(Some(flag), Some(handle))),
        consistent(v) ==> consistent(next(v, event).0),
{
}

/// A session ends once: when it is closed, no event changes it or asks for
/// anything more.
pub proof fn lemma_closed_is_final(v: SessionView, event: ConnectionEvent)
    requires
        v.state == ConnectionState::Closed,
    ensures
        next(v, event) == (v, ConnectionAction::Ignore),
{
}

/// A session releases its streams when it ends: the event that closes it
/// asks for the release of both, with a report of the bytes or of the
/// failure.
pub proof fn lemma_closing_releases(v: SessionView, event: ConnectionEvent)
    requires
        consistent(v),
        v.state != ConnectionState::Closed,
        next(v, event).0.state == ConnectionState::Closed,
    ensures
        next(v, event).1 is Report || next(v, event).1 is Release,
        next(v, event).1 is Release <==> next(v, event).0.failure is Some,
{
}

/// The tunnel is released after every copy: however the copy ends, the
/// session asks for the release and waits for it, and only what the release
/// ends with closes the session. A copy that failed is reported then, and a
/// release that failed is never lost.
pub proof fn lemma_tunnel_is_always_joined(v: SessionView, bytes: Option<(u64, u64)>, ok: bool)
    requires
        consistent(v),
        v.state == ConnectionState::Relaying(RelayStage::Copying) || v.state
            == ConnectionState::Relaying(RelayStage::Draining),
    ensures
        next(v, ConnectionEvent::CopyFinished { bytes }).1 == ConnectionAction::JoinTunnel,
        next(v, ConnectionEvent::CopyFinished { bytes }).0.state == ConnectionState::Relaying(
            RelayStage::Joining,
        ),
        next(next(v, ConnectionEvent::CopyFinished { bytes }).0, ConnectionEvent::Joined { ok }).0.state
            == ConnectionState::Closed,
        next(next(v, ConnectionEvent::CopyFinished { bytes }).0, ConnectionEvent::Joined { ok }).1
            == match (bytes, ok) {
            (Some((up, down)), true) => ConnectionAction::Report { up, down },
            (Some(_), false) => ConnectionAction::Release { failure: ConnectionFailure::JoinFailed },
            (None, true) => ConnectionAction::Release { failure: ConnectionFailure::CopyFailed },
            (None, false) => ConnectionAction::Release {
                failure: ConnectionFailure::CopyAndJoinFailed,
            },
        },
{
}

/// The flag of the abort signal is the same throughout a session: what the
/// streams and the watcher were bound to is what the session trips.
pub proof fn lemma_flag_is_kept(v: SessionView, event: ConnectionEvent)
    ensures
        next(v, event).0.flag == v.flag,
        next(v, event).0.handle == v.handle,
        next(v, event).0.close_on_unready == v.close_on_unready,
{
}

/// An abort signal that is tripped is never un-tripped, and tripping it
/// again changes nothing of it.
pub proof fn lemma_abort_is_kept(v: SessionView, event: ConnectionEvent)
    requires
        v.tripped,
    ensures
        next(v, event).0.tripped,
{
}

/// The reason of a termination, once recorded, is never changed by a later
/// event.
pub proof fn lemma_reason_is_kept(v: SessionView, event: ConnectionEvent)
    requires
        v.reason is Some,
        consistent(v),
    ensures
        next(v, event).0.reason == v.reason,
{
}

/// The reason of a termination, once recorded, outlasts every run of
/// events.
pub proof fn lemma_reason_outlasts(v: SessionView, events: Seq<ConnectionEvent>)
    requires
        v.reason is Some,
        consistent(v),
    ensures
        run(v, events).reason == v.reason,
        consistent(run(v, events)),
    decreases events.len(),
{
    if events.len() > 0 {
        lemma_reason_outlasts(v, events.drop_last());
        lemma_consistent(run(v, events.drop_last()), events.last(), arbitrary(), arbitrary());
        lemma_reason_is_kept(run(v, events.drop_last()), events.last());
    }
}

/// In a guarded relay the one of copy and watcher that ends first decides
/// the reason of the termination and trips the abort signal; whatever
/// happens afterwards, the end of the other included, leaves the reason as
/// it is.
pub proof fn lemma_first_to_end_decides(
    v: SessionView,
    bytes: Option<(u64, u64)>,
    later: Seq<ConnectionEvent>,
)
    requires
        consistent(v),
        v.state == ConnectionState::Relaying(RelayStage::Copying),
        v.close_on_unready,
    ensures
        run(next(v, ConnectionEvent::CopyFinished { bytes }).0, later).reason == Some(
            TerminationReason::NormalCompletion,
        ),
        run(next(v, ConnectionEvent::WatcherFinished).0, later).reason == Some(
            TerminationReason::ReadinessTriggered,
        ),
        next(v, ConnectionEvent::CopyFinished { bytes }).0.tripped,
        next(v, ConnectionEvent::WatcherFinished).0.tripped,
{
    lemma_consistent(v, ConnectionEvent::CopyFinished { bytes }, arbitrary(), arbitrary());
    lemma_consistent(v, ConnectionEvent::WatcherFinished, arbitrary(), arbitrary());
    lemma_reason_outlasts(next(v, ConnectionEvent::CopyFinished { bytes }).0, later);
    lemma_reason_outlasts(next(v, ConnectionEvent::WatcherFinished).0, later);
}

/// A relay that is not guarded has no watcher to heed: the end of a watcher
/// changes nothing, and the abort signal is never tripped.
pub proof fn lemma_simple_mode(v: SessionView, event: ConnectionEvent)
    requires
        consistent(v),
        !v.close_on_unready,
    ensures
        next(v, ConnectionEvent::WatcherFinished) == (v, ConnectionAction::Ignore),
        !next(v, event).0.tripped,
{
}

} // verus!
