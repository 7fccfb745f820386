//! The life of one CONNECT tunnel, from the request to the last byte.
//!
//! The proxy answers 200 before anything else happens. The connection is
//! then upgraded to a raw byte stream, the destination is dialled, and bytes
//! are copied both ways until the streams end. The caller does the waiting
//! and the copying; [`Tunnel::step`] decides what comes next.

use crate::uri::{is_host_port, Destination};
use vstd::prelude::*;

verus! {

/// Why a tunnel was given up before any byte was copied.
#[derive(Clone, Copy, PartialEq, Eq, Structural, Debug)]
pub enum TunnelFailure {
    /// The connection could not be upgraded to a raw stream.
    Upgrade,
    /// The destination could not be reached.
    Connect,
}

/// How the copying ended.
#[derive(Clone, Copy, PartialEq, Eq, Structural, Debug)]
pub enum RelayOutcome {
    /// Both directions ran to their end: the bytes that went from the client
    /// to the destination, and those that came back.
    Finished { from_client: u64, from_server: u64 },
    /// A read or a write failed.
    Errored,
}

/// Where a tunnel stands.
#[derive(Clone, Copy, PartialEq, Eq, Structural, Debug)]
pub enum TunnelState {
    /// The request was routed to a tunnel; the 200 is not yet on its way.
    Received,
    /// The 200 was sent; the upgrade to a raw stream is awaited.
    Upgrading,
    /// The stream is raw; the destination is being dialled.
    Connecting,
    /// Bytes are copied between client and destination.
    Relaying,
    /// The copying has ended.
    Closed(RelayOutcome),
    /// The tunnel was given up.
    Failed(TunnelFailure),
}

/// What the caller reports of a tunnel.
#[derive(Clone, Copy, PartialEq, Eq, Structural, Debug)]
pub enum TunnelEvent {
    /// The 200 reply was handed over for sending.
    ResponseSent,
    /// The connection is a raw stream now.
    Upgraded,
    /// The upgrade failed.
    UpgradeFailed,
    /// The destination accepted the connection.
    Connected,
    /// The destination could not be reached.
    ConnectFailed,
    /// Both directions ran to their end, with these totals.
    RelayFinished { from_client: u64, from_server: u64 },
    /// The copying broke off on an error.
    RelayFailed,
}

/// What the caller does next. Each action but `AwaitUpgrade` is also the
/// event to report to whoever watches the proxy.
#[derive(Clone, Debug, PartialEq, Eq)]
pub enum TunnelAction {
    /// Wait for the connection to be upgraded.
    AwaitUpgrade,
    /// Open a connection to this destination.
    Dial(Destination),
    /// The tunnel stands: copy bytes both ways until the streams end.
    Relay,
    /// Drop what exists of the tunnel.
    Abandon(TunnelFailure),
    /// The tunnel is closed: report how the copying ended.
    Report(RelayOutcome),
}

/// The mathematical value of a [`TunnelAction`].
pub enum TunnelActionView {
    AwaitUpgrade,
    Dial(Seq<char>),
    Relay,
    Abandon(TunnelFailure),
    Report(RelayOutcome),
}

impl View for TunnelAction {
    type V = TunnelActionView;

    open spec fn view(&self) -> TunnelActionView {
        match self {
            TunnelAction::AwaitUpgrade => TunnelActionView::AwaitUpgrade,
            TunnelAction::Dial(destination) => TunnelActionView::Dial(destination@),
            TunnelAction::Relay => TunnelActionView::Relay,
            TunnelAction::Abandon(failure) => TunnelActionView::Abandon(*failure),
            TunnelAction::Report(outcome) => TunnelActionView::Report(*outcome),
        }
    }
}

/// Whether nothing follows `state`.
pub open spec fn is_terminal(state: TunnelState) -> bool {
    state is Closed || state is Failed
}

/// The state that follows `state` on `event`, or `None` where the event has
/// no place in that state.
pub open spec fn next_state(state: TunnelState, event: TunnelEvent) -> Option<TunnelState> {
    match (state, event) {
        (TunnelState::Received, TunnelEvent::ResponseSent) => Some(TunnelState::Upgrading),
        (TunnelState::Upgrading, TunnelEvent::Upgraded) => Some(TunnelState::Connecting),
        (TunnelState::Upgrading, TunnelEvent::UpgradeFailed) => Some(
            TunnelState::Failed(TunnelFailure::Upgrade),
        ),
        (TunnelState::Connecting, TunnelEvent::Connected) => Some(TunnelState::Relaying),
        (TunnelState::Connecting, TunnelEvent::ConnectFailed) => Some(
            TunnelState::Failed(TunnelFailure::Connect),
        ),
        (TunnelState::Relaying, TunnelEvent::RelayFinished { from_client, from_server }) => Some(
            TunnelState::Closed(RelayOutcome::Finished { from_client, from_server }),
        ),
        (TunnelState::Relaying, TunnelEvent::RelayFailed) => Some(
            TunnelState::Closed(RelayOutcome::Errored),
        ),
        _ => None,
    }
}

/// What the caller does on entering `state` in a tunnel to `authority`.
pub open spec fn action_on_entry(state: TunnelState, authority: Seq<char>) -> TunnelActionView {
    match state {
        TunnelState::Received | TunnelState::Upgrading => TunnelActionView::AwaitUpgrade,
        TunnelState::Connecting => TunnelActionView::Dial(authority),
        TunnelState::Relaying => TunnelActionView::Relay,
        TunnelState::Closed(outcome) => TunnelActionView::Report(outcome),
        TunnelState::Failed(failure) => TunnelActionView::Abandon(failure),
    }
}

/// The state of a tunnel after the events `events`, in order, taken from
/// `state`: `None` as soon as one of them has no place.
pub open spec fn run(state: TunnelState, events: Seq<TunnelEvent>) -> Option<TunnelState>
    decreases events.len(),
{
    if events.len() == 0 {
        Some(state)
    } else {
        match next_state(state, events[0]) {
            Some(next) => run(next, events.drop_first()),
            None => None,
        }
    }
}

/// One tunnel: the destination it leads to, and where it stands.
#[derive(Debug, PartialEq, Eq)]
pub struct Tunnel {
    destination: Destination,
    state: TunnelState,
}

impl Tunnel {
    /// The destination of the tunnel, as `host:port`.
    pub closed spec fn destination(&self) -> Seq<char> {
        self.destination@
    }

    /// Where the tunnel stands.
    pub closed spec fn position(&self) -> TunnelState {
        self.state
    }

    /// A tunnel to `destination` for a request that was just received.
    pub fn new(destination: Destination) -> (tunnel: Tunnel)
        ensures
            tunnel.destination() == destination@,
            tunnel.position() == TunnelState::Received,
    {
        Tunnel { destination, state: TunnelState::Received }
    }

    /// The destination of the tunnel, as `host:port`.
    pub fn authority(&self) -> (authority: &str)
        ensures
            authority@ == self.destination(),
            is_host_port(authority@),
    {
        self.destination.as_str()
    }

    /// Where the tunnel stands.
    pub fn state(&self) -> (state: TunnelState)
        ensures
            state == self.position(),
    {
        self.state
    }

    /// Whether the tunnel has come to its end, closed or given up.
    pub fn is_over(&self) -> (over: bool)
        ensures
            over == is_terminal(self.position()),
    {
        match self.state {
            TunnelState::Closed(_) | TunnelState::Failed(_) => true,
            _ => false,
        }
    }

    /// Takes `event` and says what to do next.
    ///
    /// Where the event has a place in the current state, the tunnel moves to
    /// the state that follows and the action for that state is returned.
    /// Where it has none, the tunnel stays as it is and `None` is returned.
    /// The destination never changes.
    pub fn step(&mut self, event: TunnelEvent) -> (action: Option<TunnelAction>)
        ensures
            final(self).destination() == old(self).destination(),
            match next_state(old(self).position(), event) {
                Some(next) => {
                    &&& final(self).position() == next
                    &&& action matches Some(a)
                    &&& a@ == action_on_entry(next, old(self).destination())
                },
                None => {
                    &&& final(self).position() == old(self).position()
                    &&& action is None
                },
            },
    {
        match (self.state, event) {
            (TunnelState::Received, TunnelEvent::ResponseSent) => {
                self.state = TunnelState::Upgrading;
                Some(TunnelAction::AwaitUpgrade)
            },
            (TunnelState::Upgrading, TunnelEvent::Upgraded) => {
                self.state = TunnelState::Connecting;
                Some(TunnelAction::Dial(self.destination.clone()))
            },
            (TunnelState::Upgrading, TunnelEvent::UpgradeFailed) => {
                self.state = TunnelState::Failed(TunnelFailure::Upgrade);
                Some(TunnelAction::Abandon(TunnelFailure::Upgrade))
            },
            (TunnelState::Connecting, TunnelEvent::Connected) => {
                self.state = TunnelState::Relaying;
                Some(TunnelAction::Relay)
            },
            (TunnelState::Connecting, TunnelEvent::ConnectFailed) => {
                self.state = TunnelState::Failed(TunnelFailure::Connect);
                Some(TunnelAction::Abandon(TunnelFailure::Connect))
            },
            (TunnelState::Relaying, TunnelEvent::RelayFinished { from_client, from_server }) => {
                let outcome = RelayOutcome::Finished { from_client, from_server };
                self.state = TunnelState::Closed(outcome);
                Some(TunnelAction::Report(outcome))
            },
            (TunnelState::Relaying, TunnelEvent::RelayFailed) => {
                self.state = TunnelState::Closed(RelayOutcome::Errored);
                Some(TunnelAction::Report(RelayOutcome::Errored))
            },
            _ => None,
        }
    }
}

/// A tunnel that has come to its end takes no further event.
pub proof fn lemma_terminal_states_stay(state: TunnelState, event: TunnelEvent)
    requires
        is_terminal(state),
    ensures
        next_state(state, event) is None,
{
}

/// A tunnel is given up only while it is being upgraded or while its
/// destination is being dialled, and for the matching reason.
pub proof fn lemma_failure_origin(state: TunnelState, event: TunnelEvent)
    requires
        next_state(state, event) matches Some(next) && next is Failed,
    ensures
        state is Upgrading || state is Connecting,
        state is Upgrading ==> next_state(state, event) == Some(
            TunnelState::Failed(TunnelFailure::Upgrade),
        ),
        state is Connecting ==> next_state(state, event) == Some(
            TunnelState::Failed(TunnelFailure::Connect),
        ),
{
}

/// A tunnel closes only out of the copying, and a tunnel that copied both
/// directions to their end closes with exactly the totals that the copying
/// reported.
pub proof fn lemma_closing_reports_totals(state: TunnelState, event: TunnelEvent)
    requires
        next_state(state, event) matches Some(next) && next is Closed,
    ensures
        state is Relaying,
        event matches TunnelEvent::RelayFinished { from_client, from_server } ==> next_state(
            state,
            event,
        ) == Some(TunnelState::Closed(RelayOutcome::Finished { from_client, from_server })),
{
}

/// A tunnel whose every step succeeds goes from the request to the close in
/// four events, and ends with the totals of the copying: `k` bytes from the
/// client, `m` bytes from the destination.
pub proof fn lemma_session_totals(k: u64, m: u64)
    ensures
        run(
            TunnelState::Received,
            seq![
                TunnelEvent::ResponseSent,
                TunnelEvent::Upgraded,
                TunnelEvent::Connected,
                TunnelEvent::RelayFinished { from_client: k, from_server: m },
            ],
        ) == Some(TunnelState::Closed(RelayOutcome::Finished { from_client: k, from_server: m })),
{
    let events = seq![
        TunnelEvent::ResponseSent,
        TunnelEvent::Upgraded,
        TunnelEvent::Connected,
        TunnelEvent::RelayFinished { from_client: k, from_server: m },
    ];
    let e1 = events.drop_first();
    let e2 = e1.drop_first();
    let e3 = e2.drop_first();
    let e4 = e3.drop_first();
    let closed = TunnelState::Closed(RelayOutcome::Finished { from_client: k, from_server: m });
    assert(run(closed, e4) == Some(closed));
    assert(run(TunnelState::Relaying, e3) == Some(closed));
    assert(run(TunnelState::Connecting, e2) == Some(closed));
    assert(run(TunnelState::Upgrading, e1) == Some(closed));
}

} // verus!
