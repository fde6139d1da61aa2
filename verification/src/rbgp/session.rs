//! The state machine of one session.
//!
//! A session takes one event at a time and answers with its next state and
//! with what its host has to do: messages to send, a timer to start, a
//! transport to close. It does no I/O of its own.
use vstd::prelude::*;

use crate::messages::message::Message;
use crate::messages::message::MessageView;
use crate::messages::open::Open;
use crate::messages::open::OpenView;
use crate::messages::update::Update;
use crate::messages::update::UpdateView;
use crate::messages::Error;
use crate::messages::ErrorKind;
use crate::messages::ASN;

verus! {

/// Seconds of the Hold timer while the peer's OPEN is awaited, before a
/// hold time has been negotiated.
pub const PROVISIONAL_HOLD_TIME: u16 = 240;

/// Where a session stands.
#[derive(Debug, Clone, Copy, PartialEq, Eq, Structural)]
pub enum State {
    /// Torn down: no transport, no timer, no place in the registry.
    Idle,
    /// An outbound connection is being made.
    Connect,
    /// An inbound connection was accepted.
    Active,
    /// The local OPEN is out; the peer's is awaited.
    OpenSent,
    /// The peer's OPEN was taken; its KEEPALIVE is awaited.
    OpenConfirm,
    /// Routes are exchanged.
    Established,
}

/// What the local speaker says of itself in its OPEN.
#[derive(Debug, Clone, Copy, PartialEq, Eq, Structural)]
pub struct LocalConfig {
    pub asn: ASN,
    /// Seconds proposed for the Hold timer.
    pub hold_time: u16,
    pub bgp_id: u32,
}

impl LocalConfig {
    /// The OPEN that the local speaker sends.
    pub open spec fn spec_open(self) -> OpenView {
        OpenView {
            version: 4,
            asn: self.asn,
            hold_time: self.hold_time,
            bgp_id: self.bgp_id,
            optional_parameters: Seq::empty(),
        }
    }

    /// The OPEN that the local speaker sends.
    pub fn open(&self) -> (o: Open)
        ensures
            o@ == self.spec_open(),
    {
        Open {
            version: 4,
            asn: self.asn,
            hold_time: self.hold_time,
            bgp_id: self.bgp_id,
            optional_parameters: None,
        }
    }
}

/// What can happen to a session.
#[derive(Debug, PartialEq, Eq)]
pub enum Event {
    /// The transport to the peer stands.
    TransportConnected,
    /// A message came in and was decoded.
    MessageReceived(Message),
    /// Octets came in that do not decode.
    DecodeFailed(Error),
    /// The Hold timer ran out.
    HoldTimerExpired,
    /// The transport failed or was closed by the peer.
    TransportFailed,
}

/// An event as a mathematical value.
pub enum EventView {
    TransportConnected,
    MessageReceived(MessageView),
    DecodeFailed(ErrorKind),
    HoldTimerExpired,
    TransportFailed,
}

impl View for Event {
    type V = EventView;

    open spec fn view(&self) -> EventView {
        match self {
            Event::TransportConnected => EventView::TransportConnected,
            Event::MessageReceived(m) => EventView::MessageReceived(m@),
            Event::DecodeFailed(e) => EventView::DecodeFailed(e.kind),
            Event::HoldTimerExpired => EventView::HoldTimerExpired,
            Event::TransportFailed => EventView::TransportFailed,
        }
    }
}

/// What the host of a session has to do after an event.
#[derive(Debug, PartialEq, Eq)]
pub enum Action {
    /// Encode the message and write it to the transport.
    Send(Message),
    /// Start the Hold timer anew with this many seconds. Zero seconds stand
    /// for a timer that never runs out.
    StartHoldTimer(u16),
    /// Hand the routes of the UPDATE to whoever keeps the routing table.
    DeliverUpdate(Update),
    /// Stop every timer of the session: ConnectRetry, Hold and KeepAlive,
    /// whichever of them the host runs.
    CancelTimers,
    /// Close the transport.
    CloseTransport,
    /// Take the session out of the registry.
    ReleaseSession,
}

/// An action as a mathematical value.
pub enum ActionView {
    Send(MessageView),
    StartHoldTimer(u16),
    DeliverUpdate(UpdateView),
    CancelTimers,
    CloseTransport,
    ReleaseSession,
}

impl View for Action {
    type V = ActionView;

    open spec fn view(&self) -> ActionView {
        match self {
            Action::Send(m) => ActionView::Send(m@),
            Action::StartHoldTimer(seconds) => ActionView::StartHoldTimer(*seconds),
            Action::DeliverUpdate(u) => ActionView::DeliverUpdate(u@),
            Action::CancelTimers => ActionView::CancelTimers,
            Action::CloseTransport => ActionView::CloseTransport,
            Action::ReleaseSession => ActionView::ReleaseSession,
        }
    }
}

/// The values of a vector of actions.
pub open spec fn action_views(actions: Seq<Action>) -> Seq<ActionView> {
    Seq::new(actions.len(), |i: int| actions[i]@)
}

/// One session with a peer.
#[derive(Debug, PartialEq, Eq)]
pub struct Session {
    /// The peer's address, by which the session is known.
    pub remote: String,
    /// The identifier from the peer's OPEN; zero until that has come.
    pub bgp_id: u32,
    /// The autonomous system from the peer's OPEN; zero until that has come.
    pub remote_asn: ASN,
    /// The negotiated hold time in seconds; zero until the peer's OPEN has
    /// come.
    pub hold_time: u16,
    pub current_state: State,
    /// The seconds the Hold timer was last started with, while it runs.
    pub hold_timer: Option<u16>,
    /// What the local speaker announces.
    pub local: LocalConfig,
}

/// A session as a mathematical value.
pub struct SessionView {
    pub remote: Seq<char>,
    pub bgp_id: u32,
    pub remote_asn: u16,
    pub hold_time: u16,
    pub current_state: State,
    pub hold_timer: Option<u16>,
    pub local: LocalConfig,
}

impl View for Session {
    type V = SessionView;

    open spec fn view(&self) -> SessionView {
        SessionView {
            remote: self.remote@,
            bgp_id: self.bgp_id,
            remote_asn: self.remote_asn,
            hold_time: self.hold_time,
            current_state: self.current_state,
            hold_timer: self.hold_timer,
            local: self.local,
        }
    }
}

/// The smaller of two hold times.
pub open spec fn spec_min(a: u16, b: u16) -> u16 {
    if a < b {
        a
    } else {
        b
    }
}

impl SessionView {
    /// A session as it starts: nothing known of the peer, no timer running.
    pub open spec fn start(remote: Seq<char>, local: LocalConfig, state: State) -> SessionView {
        SessionView {
            remote,
            bgp_id: 0,
            remote_asn: 0,
            hold_time: 0,
            current_state: state,
            hold_timer: None,
            local,
        }
    }

    /// The Hold timer runs only once the transport stands: never in `Idle`,
    /// `Connect` or `Active`.
    pub open spec fn wf(self) -> bool {
        self.hold_timer is Some ==> (self.current_state == State::OpenSent || self.current_state
            == State::OpenConfirm || self.current_state == State::Established)
    }

    /// The session torn down, and what its host has to do for that.
    pub open spec fn teardown(self) -> (SessionView, Seq<ActionView>) {
        (
            SessionView { current_state: State::Idle, hold_timer: None, ..self },
            seq![ActionView::CancelTimers, ActionView::CloseTransport, ActionView::ReleaseSession],
        )
    }

    /// The session with its Hold timer started anew at the negotiated time,
    /// in the state given.
    pub open spec fn refreshed(self, state: State) -> SessionView {
        SessionView { current_state: state, hold_timer: Some(self.hold_time), ..self }
    }

    /// The session after an event, and what its host has to do.
    ///
    /// In `Idle` nothing happens, whatever the event. In any other state a
    /// decoding failure, a NOTIFICATION, the end of the Hold timer and a
    /// transport failure tear the session down. Beyond that:
    /// - `Connect` or `Active`, transport connected: the local OPEN goes out,
    ///   the Hold timer starts at the provisional time, the state is
    ///   `OpenSent`;
    /// - `OpenSent`, an OPEN: if it is acceptable the peer's parameters are
    ///   kept, the hold time is the smaller of the two proposed, a KEEPALIVE
    ///   goes out, the Hold timer starts at the negotiated time and the state
    ///   is `OpenConfirm`; if not, the session is torn down;
    /// - `OpenConfirm`, a KEEPALIVE: the Hold timer starts anew, the state is
    ///   `Established`;
    /// - `Established`, a KEEPALIVE: the Hold timer starts anew;
    /// - `Established`, an UPDATE: the UPDATE is handed on and the Hold timer
    ///   starts anew.
    /// Every other event leaves the session as it is and asks for nothing.
    pub open spec fn step(self, event: EventView) -> (SessionView, Seq<ActionView>) {
        if self.current_state == State::Idle {
            (self, Seq::empty())
        } else {
            match event {
                EventView::DecodeFailed(_) => self.teardown(),
                EventView::HoldTimerExpired => self.teardown(),
                EventView::TransportFailed => self.teardown(),
                EventView::MessageReceived(MessageView::Notification(_)) => self.teardown(),
                EventView::TransportConnected => if self.current_state == State::Connect
                    || self.current_state == State::Active {
                    (
                        SessionView {
                            current_state: State::OpenSent,
                            hold_timer: Some(PROVISIONAL_HOLD_TIME),
                            ..self
                        },
                        seq![
                            ActionView::Send(MessageView::Open(self.local.spec_open())),
                            ActionView::StartHoldTimer(PROVISIONAL_HOLD_TIME),
                        ],
                    )
                } else {
                    (self, Seq::empty())
                },
                EventView::MessageReceived(MessageView::Open(o)) => if self.current_state
                    == State::OpenSent {
                    if o.acceptable() {
                        let negotiated = spec_min(self.local.hold_time, o.hold_time);
                        (
                            SessionView {
                                bgp_id: o.bgp_id,
                                remote_asn: o.asn,
                                hold_time: negotiated,
                                current_state: State::OpenConfirm,
                                hold_timer: Some(negotiated),
                                ..self
                            },
                            seq![
                                ActionView::Send(MessageView::KeepAlive),
                                ActionView::StartHoldTimer(negotiated),
                            ],
                        )
                    } else {
                        self.teardown()
                    }
                } else {
                    (self, Seq::empty())
                },
                EventView::MessageReceived(MessageView::KeepAlive) => if self.current_state
                    == State::OpenConfirm || self.current_state == State::Established {
                    (
                        self.refreshed(State::Established),
                        seq![ActionView::StartHoldTimer(self.hold_time)],
                    )
                } else {
                    (self, Seq::empty())
                },
                EventView::MessageReceived(MessageView::Update(u)) => if self.current_state
                    == State::Established {
                    (
                        self.refreshed(State::Established),
                        seq![
                            ActionView::DeliverUpdate(u),
                            ActionView::StartHoldTimer(self.hold_time),
                        ],
                    )
                } else {
                    (self, Seq::empty())
                },
            }
        }
    }
}

impl Session {
    /// A session for an outbound connection to `peer`, in `Connect`.
    pub fn outbound(peer: &str, local: LocalConfig) -> (s: Session)
        ensures
            s@ == SessionView::start(peer@, local, State::Connect),
    {
        Session {
            remote: peer.to_owned(),
            bgp_id: 0,
            remote_asn: 0,
            hold_time: 0,
            current_state: State::Connect,
            hold_timer: None,
            local: local,
        }
    }

    /// A session for a connection accepted from `peer`, in `Active`.
    pub fn inbound(peer: &str, local: LocalConfig) -> (s: Session)
        ensures
            s@ == SessionView::start(peer@, local, State::Active),
    {
        Session {
            remote: peer.to_owned(),
            bgp_id: 0,
            remote_asn: 0,
            hold_time: 0,
            current_state: State::Active,
            hold_timer: None,
            local: local,
        }
    }

    /// A second session value equal to this one.
    pub fn duplicate(&self) -> (s: Session)
        ensures
            s@ == self@,
    {
        Session {
            remote: self.remote.clone(),
            bgp_id: self.bgp_id,
            remote_asn: self.remote_asn,
            hold_time: self.hold_time,
            current_state: self.current_state,
            hold_timer: self.hold_timer,
            local: self.local,
        }
    }

    /// Tears the session down.
    fn teardown(&mut self) -> (actions: Vec<Action>)
        ensures
            final(self)@ == old(self)@.teardown().0,
            action_views(actions@) == old(self)@.teardown().1,
    {
        self.current_state = State::Idle;
        self.hold_timer = None;
        let mut actions: Vec<Action> = Vec::new();
        actions.push(Action::CancelTimers);
        actions.push(Action::CloseTransport);
        actions.push(Action::ReleaseSession);
        actions
    }

    /// Starts the Hold timer anew at the negotiated time and moves to
    /// `state`.
    fn refresh(&mut self, state: State, actions: &mut Vec<Action>)
        ensures
            final(self)@ == old(self)@.refreshed(state),
            final(actions)@ == old(actions)@.push(Action::StartHoldTimer(old(self).hold_time)),
    {
        self.current_state = state;
        self.hold_timer = Some(self.hold_time);
        actions.push(Action::StartHoldTimer(self.hold_time));
    }
}

/// The smaller of two hold times.
pub fn min_hold_time(a: u16, b: u16) -> (m: u16)
    ensures
        m == spec_min(a, b),
{
    if a < b {
        a
    } else {
        b
    }
}

/// Takes one event to a session: the session moves to its next state, and
/// what its host has to do comes back, in order.
pub fn handle(session: &mut Session, event: Event) -> (actions: Vec<Action>)
    ensures
        final(session)@ == old(session)@.step(event@).0,
        action_views(actions@) == old(session)@.step(event@).1,
{
    let mut actions: Vec<Action> = Vec::new();
    match session.current_state {
        State::Idle => {
            return actions;
        },
        _ => {},
    }
    match event {
        Event::DecodeFailed(_) => session.teardown(),
        Event::HoldTimerExpired => session.teardown(),
        Event::TransportFailed => session.teardown(),
        Event::MessageReceived(Message::Notification(_)) => session.teardown(),
        Event::TransportConnected => {
            match session.current_state {
                State::Connect | State::Active => {
                    session.current_state = State::OpenSent;
                    session.hold_timer = Some(PROVISIONAL_HOLD_TIME);
                    actions.push(Action::Send(Message::Open(session.local.open())));
                    actions.push(Action::StartHoldTimer(PROVISIONAL_HOLD_TIME));
                },
                _ => {},
            }
            actions
        },
        Event::MessageReceived(Message::Open(o)) => {
            match session.current_state {
                State::OpenSent => {
                    if o.is_acceptable() {
                        let negotiated: u16 = min_hold_time(session.local.hold_time, o.hold_time);
                        session.bgp_id = o.bgp_id;
                        session.remote_asn = o.asn;
                        session.hold_time = negotiated;
                        session.current_state = State::OpenConfirm;
                        session.hold_timer = Some(negotiated);
                        actions.push(Action::Send(Message::KeepAlive));
                        actions.push(Action::StartHoldTimer(negotiated));
                        actions
                    } else {
                        session.teardown()
                    }
                },
                _ => actions,
            }
        },
        Event::MessageReceived(Message::KeepAlive) => {
            match session.current_state {
                State::OpenConfirm | State::Established => {
                    session.refresh(State::Established, &mut actions);
                },
                _ => {},
            }
            actions
        },
        Event::MessageReceived(Message::Update(u)) => {
            match session.current_state {
                State::Established => {
                    actions.push(Action::DeliverUpdate(u));
                    session.refresh(State::Established, &mut actions);
                },
                _ => {},
            }
            actions
        },
    }
}

/// The state that follows `state` on an event: the whole table of the
/// machine. It names a next state for every state and every event.
pub open spec fn next_state(state: State, event: EventView) -> State {
    match (state, event) {
        (State::Idle, _) => State::Idle,
        (_, EventView::DecodeFailed(_)) => State::Idle,
        (_, EventView::HoldTimerExpired) => State::Idle,
        (_, EventView::TransportFailed) => State::Idle,
        (_, EventView::MessageReceived(MessageView::Notification(_))) => State::Idle,
        (State::Connect, EventView::TransportConnected) => State::OpenSent,
        (State::Active, EventView::TransportConnected) => State::OpenSent,
        (State::OpenSent, EventView::MessageReceived(MessageView::Open(o))) => if o.acceptable() {
            State::OpenConfirm
        } else {
            State::Idle
        },
        (State::OpenConfirm, EventView::MessageReceived(MessageView::KeepAlive)) => {
            State::Established
        },
        (_, _) => state,
    }
}

/// The next state of a session is a matter of its state and of the event
/// alone, as the table gives it; the peer's address and the local parameters
/// never change.
pub proof fn step_follows_the_table(s: SessionView, event: EventView)
    ensures
        s.step(event).0.current_state == next_state(s.current_state, event),
        s.step(event).0.remote == s.remote,
        s.step(event).0.local == s.local,
{
}

/// Every pair of a state and an event either makes one of the listed moves or
/// leaves the state as it is.
pub proof fn table_moves_are_the_listed_ones(state: State, event: EventView)
    ensures
        ({
            let next = next_state(state, event);
            ||| next == state
            ||| (state == State::Connect || state == State::Active) && event
                == EventView::TransportConnected && next == State::OpenSent
            ||| state == State::OpenSent && event is MessageReceived
                && event->MessageReceived_0 is Open && event->MessageReceived_0->Open_0.acceptable()
                && next == State::OpenConfirm
            ||| state == State::OpenConfirm && event == EventView::MessageReceived(
                MessageView::KeepAlive,
            ) && next == State::Established
            ||| state != State::Idle && next == State::Idle && (event is DecodeFailed || event
                == EventView::HoldTimerExpired || event == EventView::TransportFailed || (event
                is MessageReceived && event->MessageReceived_0 is Notification) || (state
                == State::OpenSent && event is MessageReceived && event->MessageReceived_0 is Open
                && !event->MessageReceived_0->Open_0.acceptable()))
        }),
{
}

/// An event that leaves the state as it is changes at most the Hold timer,
/// and asks for nothing but what a KEEPALIVE or an UPDATE in `Established`
/// asks for.
pub proof fn unlisted_events_do_nothing(s: SessionView, event: EventView)
    requires
        next_state(s.current_state, event) == s.current_state,
        !(s.current_state == State::Established && event is MessageReceived && (
        event->MessageReceived_0 is KeepAlive || event->MessageReceived_0 is Update)),
    ensures
        s.step(event) == (s, Seq::<ActionView>::empty()),
{
}

/// A session in `Idle` stays as it is and asks for nothing, whatever comes: a
/// timer that fires after the teardown finds nothing to act on.
pub proof fn idle_is_inert(s: SessionView, event: EventView)
    requires
        s.current_state == State::Idle,
    ensures
        s.step(event) == (s, Seq::<ActionView>::empty()),
{
}

/// A session that an event takes to `Idle` has no Hold timer left, and its
/// host is told to cancel the timers, close the transport and release the
/// session, in that order.
pub proof fn entering_idle_tears_down(s: SessionView, event: EventView)
    requires
        s.current_state != State::Idle,
        s.step(event).0.current_state == State::Idle,
    ensures
        s.step(event) == s.teardown(),
        s.step(event).0.hold_timer is None,
        s.step(event).1 == seq![
            ActionView::CancelTimers,
            ActionView::CloseTransport,
            ActionView::ReleaseSession,
        ],
{
}

/// A well-formed session stays well formed.
pub proof fn step_keeps_wf(s: SessionView, event: EventView)
    requires
        s.wf(),
    ensures
        s.step(event).0.wf(),
{
}

/// The hold time that an acceptable OPEN settles is the smaller of the two
/// proposed, and the Hold timer is started with it.
pub proof fn negotiated_hold_time_is_the_minimum(s: SessionView, o: OpenView)
    requires
        s.current_state == State::OpenSent,
        o.acceptable(),
    ensures
        ({
            let next = s.step(EventView::MessageReceived(MessageView::Open(o))).0;
            &&& next.hold_time <= s.local.hold_time
            &&& next.hold_time <= o.hold_time
            &&& (next.hold_time == s.local.hold_time || next.hold_time == o.hold_time)
            &&& next.hold_timer == Some(next.hold_time)
        }),
{
}

/// A fresh session, outbound or inbound, is established by the three events
/// of the handshake: the transport connects, an acceptable OPEN comes, a
/// KEEPALIVE comes.
pub proof fn handshake_establishes(s: SessionView, o: OpenView)
    requires
        s.current_state == State::Connect || s.current_state == State::Active,
        o.acceptable(),
    ensures
        s.step(EventView::TransportConnected).0.step(
            EventView::MessageReceived(MessageView::Open(o)),
        ).0.step(EventView::MessageReceived(MessageView::KeepAlive)).0.current_state
            == State::Established,
{
}

} // verus!
