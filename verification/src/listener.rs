//! The listener of one forward target: what it does with each thing that
//! its sockets, its forwarders and the process yield.

use vstd::prelude::*;

verus! {

/// Where a listener is in its life.
#[derive(Clone, Copy, Debug, PartialEq, Eq, Structural)]
pub enum ListenerState {
    /// The target is being set up: its service is looked up and its sockets
    /// are bound.
    Starting,
    /// The sockets are bound and connections are accepted.
    Accepting,
    /// Nothing is accepted any more.
    Stopped,
}

/// Something that happened to a listener.
#[derive(Clone, Copy, Debug, PartialEq, Eq, Structural)]
pub enum ListenerEvent {
    /// The setup of the target has ended, well or not.
    SetUp { ok: bool },
    /// A socket accepted a connection. Whether the address of its peer can
    /// be told concerns that connection alone, and so is no part of this.
    Accepted,
    /// A socket failed to accept.
    AcceptFailed,
    /// The process was told to shut down.
    Shutdown,
    /// No socket will yield anything more.
    Exhausted,
    /// A forwarder that this listener started has ended, well or not.
    ForwarderEnded { failed: bool },
}

/// What a listener is to do.
#[derive(Clone, Copy, Debug, PartialEq, Eq, Structural)]
pub enum ListenerAction {
    /// Nothing.
    Ignore,
    /// Begin to accept connections on the bound sockets.
    Accept,
    /// Start a forwarder of its own for the accepted connection.
    Forward,
    /// Stop accepting, with an error or without. Connections in flight are
    /// left alone.
    Stop { failed: bool },
}

/// The listener after an event, and what it is to do.
///
/// A listener begins to accept once its target is set up; a setup that
/// fails, by the lookup of the service or by a socket that cannot be bound,
/// stops this one listener with an error and no other.
/// A listener that accepts goes on accepting for as long as its sockets
/// yield connections, and every connection that it accepts gets a forwarder.
/// It stops without error on the shutdown of the process and when its
/// sockets are exhausted, and with an error when a socket fails to accept.
/// What becomes of a connection or of its forwarder, which reports its own
/// failure, never stops it. A stopped listener does nothing.
pub open spec fn served(state: ListenerState, event: ListenerEvent) -> (
    ListenerState,
    ListenerAction,
) {
    match state {
        ListenerState::Stopped => (ListenerState::Stopped, ListenerAction::Ignore),
        ListenerState::Starting => match event {
            ListenerEvent::SetUp { ok } => if ok {
                (ListenerState::Accepting, ListenerAction::Accept)
            } else {
                (ListenerState::Stopped, ListenerAction::Stop { failed: true })
            },
            ListenerEvent::Shutdown => (
                ListenerState::Stopped,
                ListenerAction::Stop { failed: false },
            ),
            _ => (ListenerState::Starting, ListenerAction::Ignore),
        },
        ListenerState::Accepting => match event {
            ListenerEvent::SetUp { ok } => (ListenerState::Accepting, ListenerAction::Ignore),
            ListenerEvent::Accepted => (ListenerState::Accepting, ListenerAction::Forward),
            ListenerEvent::AcceptFailed => (
                ListenerState::Stopped,
                ListenerAction::Stop { failed: true },
            ),
            ListenerEvent::Shutdown => (
                ListenerState::Stopped,
                ListenerAction::Stop { failed: false },
            ),
            ListenerEvent::Exhausted => (
                ListenerState::Stopped,
                ListenerAction::Stop { failed: false },
            ),
            ListenerEvent::ForwarderEnded { failed } => (
                ListenerState::Accepting,
                ListenerAction::Ignore,
            ),
        },
    }
}

/// Takes note of an event of a listener and says what it is to do.
pub fn serve(state: ListenerState, event: ListenerEvent) -> (result: (ListenerState, ListenerAction))
    ensures
        result == served(state, event),
{
    match state {
        ListenerState::Stopped => (ListenerState::Stopped, ListenerAction::Ignore),
        ListenerState::Starting => match event {
            ListenerEvent::SetUp { ok } => if ok {
                (ListenerState::Accepting, ListenerAction::Accept)
            } else {
                (ListenerState::Stopped, ListenerAction::Stop { failed: true })
            },
            ListenerEvent::Shutdown => (
                ListenerState::Stopped,
                ListenerAction::Stop { failed: false },
            ),
            _ => (ListenerState::Starting, ListenerAction::Ignore),
        },
        ListenerState::Accepting => match event {
            ListenerEvent::SetUp { ok } => (ListenerState::Accepting, ListenerAction::Ignore),
            ListenerEvent::Accepted => (ListenerState::Accepting, ListenerAction::Forward),
            ListenerEvent::AcceptFailed => (
                ListenerState::Stopped,
                ListenerAction::Stop { failed: true },
            ),
            ListenerEvent::Shutdown | ListenerEvent::Exhausted => (
                ListenerState::Stopped,
                ListenerAction::Stop { failed: false },
            ),
            ListenerEvent::ForwarderEnded { failed } => (
                ListenerState::Accepting,
                ListenerAction::Ignore,
            ),
        },
    }
}

/// The failure of a connection never reaches its listener: whatever a
/// forwarder ends with, the listener stays as it was.
pub proof fn lemma_forwarder_never_stops_listener(state: ListenerState, failed: bool)
    ensures
        served(state, ListenerEvent::ForwarderEnded { failed }).0 == state,
{
}

/// A listener that accepts gives every accepted connection a forwarder and
/// goes on accepting.
pub proof fn lemma_every_connection_is_forwarded()
    ensures
        served(ListenerState::Accepting, ListenerEvent::Accepted) == (
            ListenerState::Accepting,
            ListenerAction::Forward,
        ),
{
}

/// A setup that fails stops its listener before anything is accepted, and a
/// setup that succeeds makes it accept.
pub proof fn lemma_setup_decides(ok: bool)
    ensures
        served(ListenerState::Starting, ListenerEvent::SetUp { ok }).0 == if ok {
            ListenerState::Accepting
        } else {
            ListenerState::Stopped
        },
        !ok ==> served(ListenerState::Starting, ListenerEvent::SetUp { ok }).1
            == (ListenerAction::Stop { failed: true }),
{
}

/// After the shutdown of the process a listener accepts nothing more, and
/// nothing that happens later makes it start a forwarder or stop again.
pub proof fn lemma_shutdown_stops(state: ListenerState, later: ListenerEvent)
    ensures
        served(state, ListenerEvent::Shutdown).0 == ListenerState::Stopped,
        served(served(state, ListenerEvent::Shutdown).0, later) == (
            ListenerState::Stopped,
            ListenerAction::Ignore,
        ),
{
}

} // verus!
