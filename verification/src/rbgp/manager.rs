//! The registry of sessions, one to a peer.
//!
//! The registry is a plain value. Whoever hosts it keeps it behind one lock or
//! in one task, and sessions reach it only through its methods.
use vstd::hash_map::StringHashMap;
use vstd::prelude::*;

use super::session::action_views;
use super::session::handle;
use super::session::step_keeps_wf;
use super::session::Action;
use super::session::ActionView;
use super::session::Event;
use super::session::EventView;
use super::session::LocalConfig;
use super::session::Session;
use super::session::SessionView;
use super::session::State;
use crate::messages::message::MessageView;
use crate::messages::open::OpenView;
use crate::messages::Error;
use crate::messages::ErrorKind;

verus! {

/// Every session is filed under its peer's address, is well formed, and is
/// not in `Idle`: a session that is torn down leaves the registry.
pub open spec fn registry_wf(sessions: Map<Seq<char>, SessionView>) -> bool {
    forall|peer: Seq<char>| #[trigger]
        sessions.contains_key(peer) ==> {
            &&& sessions[peer].remote == peer
            &&& sessions[peer].current_state != State::Idle
            &&& sessions[peer].wf()
        }
}

/// The registry after an attempt to register a session for `peer` that starts
/// in `state`: refused where the peer has a session, else with the new
/// session added.
pub open spec fn spec_register(
    sessions: Map<Seq<char>, SessionView>,
    peer: Seq<char>,
    local: LocalConfig,
    state: State,
) -> Result<Map<Seq<char>, SessionView>, ErrorKind> {
    if sessions.contains_key(peer) {
        Err(ErrorKind::DuplicateSession)
    } else {
        Ok(sessions.insert(peer, SessionView::start(peer, local, state)))
    }
}

/// The registry after an event for `peer`, and what the host of that session
/// has to do. A peer without a session is passed over. A session that the
/// event takes to `Idle` leaves the registry.
pub open spec fn spec_deliver(
    sessions: Map<Seq<char>, SessionView>,
    peer: Seq<char>,
    event: EventView,
) -> (Map<Seq<char>, SessionView>, Seq<ActionView>) {
    if !sessions.contains_key(peer) {
        (sessions, Seq::empty())
    } else {
        let stepped = sessions[peer].step(event);
        if stepped.0.current_state == State::Idle {
            (sessions.remove(peer), stepped.1)
        } else {
            (sessions.insert(peer, stepped.0), stepped.1)
        }
    }
}

/// The registry after the session of `peer` is taken out, and what the host
/// of that session has to do. A peer without a session is passed over.
pub open spec fn spec_remove(sessions: Map<Seq<char>, SessionView>, peer: Seq<char>) -> (
    Map<Seq<char>, SessionView>,
    Seq<ActionView>,
) {
    if !sessions.contains_key(peer) {
        (sessions, Seq::empty())
    } else {
        (sessions.remove(peer), sessions[peer].teardown().1)
    }
}

/// What the registry can be asked to do.
#[derive(Debug, PartialEq, Eq)]
pub enum Command {
    /// Register a session for an outbound connection to the peer.
    Create(String),
    /// Register a session for a connection accepted from the peer.
    Accept(String),
    /// Take an event to the session of the peer.
    Deliver(String, Event),
    /// Take the session of the peer out.
    Remove(String),
}

/// A command as a mathematical value.
pub enum CommandView {
    Create(Seq<char>),
    Accept(Seq<char>),
    Deliver(Seq<char>, EventView),
    Remove(Seq<char>),
}

impl View for Command {
    type V = CommandView;

    open spec fn view(&self) -> CommandView {
        match self {
            Command::Create(peer) => CommandView::Create(peer@),
            Command::Accept(peer) => CommandView::Accept(peer@),
            Command::Deliver(peer, event) => CommandView::Deliver(peer@, event@),
            Command::Remove(peer) => CommandView::Remove(peer@),
        }
    }
}

impl CommandView {
    /// The peer that the command is about.
    pub open spec fn peer(self) -> Seq<char> {
        match self {
            CommandView::Create(peer) => peer,
            CommandView::Accept(peer) => peer,
            CommandView::Deliver(peer, _) => peer,
            CommandView::Remove(peer) => peer,
        }
    }
}

/// The registry after a command, and the answer to it: what the host of the
/// session has to do, or why the command was refused. A refused command
/// leaves the registry as it was.
pub open spec fn spec_run(
    sessions: Map<Seq<char>, SessionView>,
    local: LocalConfig,
    command: CommandView,
) -> (Map<Seq<char>, SessionView>, Result<Seq<ActionView>, ErrorKind>) {
    match command {
        CommandView::Create(peer) => match spec_register(sessions, peer, local, State::Connect) {
            Ok(registered) => (registered, Ok(Seq::empty())),
            Err(e) => (sessions, Err(e)),
        },
        CommandView::Accept(peer) => match spec_register(sessions, peer, local, State::Active) {
            Ok(registered) => (registered, Ok(Seq::empty())),
            Err(e) => (sessions, Err(e)),
        },
        CommandView::Deliver(peer, event) => (
            spec_deliver(sessions, peer, event).0,
            Ok(spec_deliver(sessions, peer, event).1),
        ),
        CommandView::Remove(peer) => (
            spec_remove(sessions, peer).0,
            Ok(spec_remove(sessions, peer).1),
        ),
    }
}

/// The sessions of this speaker, each known by its peer's address.
pub struct ConnectionManager {
    sessions: StringHashMap<Session>,
    local: LocalConfig,
}

impl View for ConnectionManager {
    type V = Map<Seq<char>, SessionView>;

    closed spec fn view(&self) -> Map<Seq<char>, SessionView> {
        self.sessions@.map_values(|s: Session| s@)
    }
}

impl ConnectionManager {
    #[verifier::type_invariant]
    spec fn well_kept(self) -> bool {
        registry_wf(self@)
    }

    /// What the local speaker announces to every peer.
    pub closed spec fn spec_local(&self) -> LocalConfig {
        self.local
    }

    /// An empty registry for a speaker that announces `local`.
    pub fn new(local: LocalConfig) -> (manager: ConnectionManager)
        ensures
            manager@ == Map::<Seq<char>, SessionView>::empty(),
            manager.spec_local() == local,
    {
        ConnectionManager { sessions: StringHashMap::new(), local: local }
    }

    /// What the local speaker announces to every peer.
    pub fn local(&self) -> (local: LocalConfig)
        ensures
            local == self.spec_local(),
    {
        self.local
    }

    /// Files `session` under `peer`, in place of any session the peer had.
    /// The map is taken out of the registry while it changes, so that the
    /// registry is never seen half changed.
    fn put(&mut self, peer: &str, session: Session)
        requires
            session@.remote == peer@,
            session@.current_state != State::Idle,
            session@.wf(),
        ensures
            final(self).spec_local() == old(self).spec_local(),
            final(self)@ == old(self)@.insert(peer@, session@),
    {
        proof {
            use_type_invariant(&*self);
        }
        let mut sessions: StringHashMap<Session> = StringHashMap::new();
        core::mem::swap(&mut self.sessions, &mut sessions);
        sessions.insert(peer.to_owned(), session);
        assert(sessions@.map_values(|s: Session| s@) =~= old(self)@.insert(peer@, session@));
        core::mem::swap(&mut self.sessions, &mut sessions);
    }

    /// Takes the session of `peer` out, if the peer has one.
    fn take(&mut self, peer: &str)
        ensures
            final(self).spec_local() == old(self).spec_local(),
            final(self)@ == old(self)@.remove(peer@),
    {
        proof {
            use_type_invariant(&*self);
        }
        let mut sessions: StringHashMap<Session> = StringHashMap::new();
        core::mem::swap(&mut self.sessions, &mut sessions);
        sessions.remove(peer);
        assert(sessions@.map_values(|s: Session| s@) =~= old(self)@.remove(peer@));
        core::mem::swap(&mut self.sessions, &mut sessions);
    }

    /// Files a fresh session for `peer`, unless the peer has one.
    fn register(&mut self, peer: &str, state: State) -> (r: Result<(), Error>)
        requires
            state == State::Connect || state == State::Active,
        ensures
            final(self).spec_local() == old(self).spec_local(),
            registry_wf(final(self)@),
            match r {
                Ok(_) => spec_register(old(self)@, peer@, old(self).spec_local(), state) == Ok::<
                    Map<Seq<char>, SessionView>,
                    ErrorKind,
                >(final(self)@),
                Err(e) => spec_register(old(self)@, peer@, old(self).spec_local(), state) == Err::<
                    Map<Seq<char>, SessionView>,
                    ErrorKind,
                >(e.kind) && final(self)@ == old(self)@,
            },
    {
        proof {
            use_type_invariant(&*self);
        }
        if self.sessions.contains_key(peer) {
            return Err(Error::new(ErrorKind::DuplicateSession));
        }
        let session = match state {
            State::Active => Session::inbound(peer, self.local),
            _ => Session::outbound(peer, self.local),
        };
        self.put(peer, session);
        Ok(())
    }

    /// Registers a session for an outbound connection to `peer`. It starts in
    /// `Connect`. A peer that has a session is refused with
    /// `DuplicateSession`, and nothing changes.
    pub fn create_session(&mut self, peer: &str) -> (r: Result<(), Error>)
        ensures
            final(self).spec_local() == old(self).spec_local(),
            registry_wf(final(self)@),
            match r {
                Ok(_) => spec_register(
                    old(self)@,
                    peer@,
                    old(self).spec_local(),
                    State::Connect,
                ) == Ok::<Map<Seq<char>, SessionView>, ErrorKind>(final(self)@),
                Err(e) => spec_register(
                    old(self)@,
                    peer@,
                    old(self).spec_local(),
                    State::Connect,
                ) == Err::<Map<Seq<char>, SessionView>, ErrorKind>(e.kind) && final(self)@ == old(
                    self,
                )@,
            },
    {
        self.register(peer, State::Connect)
    }

    /// Registers a session for a connection accepted from `peer`. It starts
    /// in `Active`. A peer that has a session is refused with
    /// `DuplicateSession`, and nothing changes.
    pub fn accept_session(&mut self, peer: &str) -> (r: Result<(), Error>)
        ensures
            final(self).spec_local() == old(self).spec_local(),
            registry_wf(final(self)@),
            match r {
                Ok(_) => spec_register(
                    old(self)@,
                    peer@,
                    old(self).spec_local(),
                    State::Active,
                ) == Ok::<Map<Seq<char>, SessionView>, ErrorKind>(final(self)@),
                Err(e) => spec_register(
                    old(self)@,
                    peer@,
                    old(self).spec_local(),
                    State::Active,
                ) == Err::<Map<Seq<char>, SessionView>, ErrorKind>(e.kind) && final(self)@ == old(
                    self,
                )@,
            },
    {
        self.register(peer, State::Active)
    }

    /// Takes `event` to the session of `peer` and says what the host of that
    /// session has to do. A session that the event takes to `Idle` leaves the
    /// registry. Where the peer has no session nothing happens.
    pub fn deliver(&mut self, peer: &str, event: Event) -> (actions: Vec<Action>)
        ensures
            final(self).spec_local() == old(self).spec_local(),
            registry_wf(final(self)@),
            final(self)@ == spec_deliver(old(self)@, peer@, event@).0,
            action_views(actions@) == spec_deliver(old(self)@, peer@, event@).1,
    {
        proof {
            use_type_invariant(&*self);
        }
        let mut session = match self.sessions.get(peer) {
            None => {
                return Vec::new();
            },
            Some(found) => found.duplicate(),
        };
        let ghost before = session@;
        assert(self@.contains_key(peer@) && self@[peer@] == before);
        let actions = handle(&mut session, event);
        proof {
            step_keeps_wf(before, event@);
        }
        match session.current_state {
            State::Idle => {
                self.take(peer);
            },
            _ => {
                self.put(peer, session);
            },
        }
        actions
    }

    /// Takes the session of `peer` out of the registry and says what the host
    /// of that session has to do: cancel the timers, close the transport,
    /// release the session. Where the peer has no session nothing happens.
    pub fn remove_session(&mut self, peer: &str) -> (actions: Vec<Action>)
        ensures
            final(self).spec_local() == old(self).spec_local(),
            registry_wf(final(self)@),
            final(self)@ == spec_remove(old(self)@, peer@).0,
            action_views(actions@) == spec_remove(old(self)@, peer@).1,
    {
        proof {
            use_type_invariant(&*self);
        }
        let mut actions: Vec<Action> = Vec::new();
        if !self.sessions.contains_key(peer) {
            return actions;
        }
        self.take(peer);
        actions.push(Action::CancelTimers);
        actions.push(Action::CloseTransport);
        actions.push(Action::ReleaseSession);
        actions
    }

    /// The state of the session of `peer`, if the peer has one.
    pub fn state_of(&self, peer: &str) -> (state: Option<State>)
        ensures
            match state {
                Some(s) => self@.contains_key(peer@) && self@[peer@].current_state == s && s
                    != State::Idle,
                None => !self@.contains_key(peer@),
            },
    {
        proof {
            use_type_invariant(self);
        }
        match self.sessions.get(peer) {
            None => None,
            Some(found) => {
                assert(self@.contains_key(peer@));
                Some(found.current_state)
            },
        }
    }

    /// A copy of the session of `peer`, if the peer has one.
    pub fn session(&self, peer: &str) -> (session: Option<Session>)
        ensures
            match session {
                Some(s) => self@.contains_key(peer@) && self@[peer@] == s@,
                None => !self@.contains_key(peer@),
            },
    {
        match self.sessions.get(peer) {
            None => None,
            Some(found) => Some(found.duplicate()),
        }
    }

    /// How many sessions the registry holds.
    pub fn len(&self) -> (n: usize)
        ensures
            n == self@.dom().len(),
    {
        assert(self@.dom() =~= self.sessions@.dom());
        self.sessions.len()
    }

    /// Carries out one command. This is the one door to the registry: its
    /// host calls it for one command at a time.
    pub fn run(&mut self, command: Command) -> (r: Result<Vec<Action>, Error>)
        ensures
            final(self).spec_local() == old(self).spec_local(),
            registry_wf(final(self)@),
            final(self)@ == spec_run(old(self)@, old(self).spec_local(), command@).0,
            match r {
                Ok(actions) => spec_run(old(self)@, old(self).spec_local(), command@).1 == Ok::<
                    Seq<ActionView>,
                    ErrorKind,
                >(action_views(actions@)),
                Err(e) => spec_run(old(self)@, old(self).spec_local(), command@).1 == Err::<
                    Seq<ActionView>,
                    ErrorKind,
                >(e.kind),
            },
    {
        match command {
            Command::Create(peer) => match self.create_session(peer.as_str()) {
                Ok(_) => {
                    let nothing: Vec<Action> = Vec::new();
                    assert(action_views(nothing@) =~= Seq::empty());
                    Ok(nothing)
                },
                Err(e) => Err(e),
            },
            Command::Accept(peer) => match self.accept_session(peer.as_str()) {
                Ok(_) => {
                    let nothing: Vec<Action> = Vec::new();
                    assert(action_views(nothing@) =~= Seq::empty());
                    Ok(nothing)
                },
                Err(e) => Err(e),
            },
            Command::Deliver(peer, event) => Ok(self.deliver(peer.as_str(), event)),
            Command::Remove(peer) => Ok(self.remove_session(peer.as_str())),
        }
    }
}

/// Once a peer has a session, registering it again, outbound or inbound, is
/// refused with `DuplicateSession`, and the session it has is the one that was
/// registered first.
pub proof fn registered_peer_is_refused(
    sessions: Map<Seq<char>, SessionView>,
    peer: Seq<char>,
    local: LocalConfig,
    first: State,
    second: State,
)
    requires
        spec_register(sessions, peer, local, first) is Ok,
    ensures
        ({
            let registered = spec_register(sessions, peer, local, first)->Ok_0;
            &&& registered.contains_key(peer)
            &&& registered[peer] == SessionView::start(peer, local, first)
            &&& spec_register(registered, peer, local, second) == Err::<
                Map<Seq<char>, SessionView>,
                ErrorKind,
            >(ErrorKind::DuplicateSession)
        }),
{
}

/// A session that was registered, outbound or inbound, is established by the
/// three events of the handshake, and is in the registry all the while.
pub proof fn registered_session_can_be_established(
    sessions: Map<Seq<char>, SessionView>,
    peer: Seq<char>,
    local: LocalConfig,
    state: State,
    o: OpenView,
)
    requires
        state == State::Connect || state == State::Active,
        spec_register(sessions, peer, local, state) is Ok,
        o.acceptable(),
    ensures
        ({
            let registered = spec_register(sessions, peer, local, state)->Ok_0;
            let connected = spec_deliver(registered, peer, EventView::TransportConnected).0;
            let opened = spec_deliver(
                connected,
                peer,
                EventView::MessageReceived(MessageView::Open(o)),
            ).0;
            let confirmed = spec_deliver(
                opened,
                peer,
                EventView::MessageReceived(MessageView::KeepAlive),
            ).0;
            &&& connected.contains_key(peer) && connected[peer].current_state == State::OpenSent
            &&& opened.contains_key(peer) && opened[peer].current_state == State::OpenConfirm
            &&& confirmed.contains_key(peer) && confirmed[peer].current_state
                == State::Established
        }),
{
}

/// Every operation keeps the registry in order: a well-kept registry, after a
/// command, is well kept.
pub proof fn run_keeps_the_registry(
    sessions: Map<Seq<char>, SessionView>,
    local: LocalConfig,
    command: CommandView,
)
    requires
        registry_wf(sessions),
    ensures
        registry_wf(spec_run(sessions, local, command).0),
{
    match command {
        CommandView::Deliver(peer, event) => {
            if sessions.contains_key(peer) {
                step_keeps_wf(sessions[peer], event);
            }
        },
        _ => {},
    }
}

/// A command touches the session of its own peer only: whatever happens to
/// one session, a failure too, every other peer keeps the session it has.
pub proof fn command_touches_one_peer(
    sessions: Map<Seq<char>, SessionView>,
    local: LocalConfig,
    command: CommandView,
    other: Seq<char>,
)
    requires
        other != command.peer(),
    ensures
        spec_run(sessions, local, command).0.contains_key(other) == sessions.contains_key(other),
        sessions.contains_key(other) ==> spec_run(sessions, local, command).0[other]
            == sessions[other],
{
}

} // verus!
