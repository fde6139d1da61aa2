use rbgp::messages::Error;
use rbgp::messages::ErrorKind;
use rbgp::messages::Message;
use rbgp::messages::Open;
use rbgp::rbgp::Action;
use rbgp::rbgp::Command;
use rbgp::rbgp::ConnectionManager;
use rbgp::rbgp::Event;
use rbgp::rbgp::LocalConfig;
use rbgp::rbgp::State;

const PEER: &str = "10.0.0.1:179";
const OTHER: &str = "10.0.0.2:179";

fn local() -> LocalConfig {
    LocalConfig { asn: 64512, hold_time: 90, bgp_id: 0x0A000002 }
}

fn peer_open() -> Open {
    Open { version: 4, asn: 64511, hold_time: 30, bgp_id: 22, optional_parameters: None }
}

fn teardown_actions() -> Vec<Action> {
    vec![Action::CancelTimers, Action::CloseTransport, Action::ReleaseSession]
}

#[test]
fn manager_starts_empty() {
    let m = ConnectionManager::new(local());
    assert_eq!(m.len(), 0);
    assert_eq!(m.local(), local());
    assert_eq!(m.state_of(PEER), None);
    assert_eq!(m.session(PEER), None);
}

#[test]
fn manager_second_session_for_a_peer_is_a_duplicate() {
    let mut m = ConnectionManager::new(local());
    assert_eq!(m.create_session("10.0.0.1:179"), Ok(()));
    assert_eq!(
        m.create_session("10.0.0.1:179"),
        Err(Error::new(ErrorKind::DuplicateSession))
    );
    assert_eq!(m.len(), 1);
    assert_eq!(m.state_of("10.0.0.1:179"), Some(State::Connect));

    // the first session can still be established
    m.deliver("10.0.0.1:179", Event::TransportConnected);
    assert_eq!(m.state_of("10.0.0.1:179"), Some(State::OpenSent));
    m.deliver("10.0.0.1:179", Event::MessageReceived(Message::Open(peer_open())));
    assert_eq!(m.state_of("10.0.0.1:179"), Some(State::OpenConfirm));
    m.deliver("10.0.0.1:179", Event::MessageReceived(Message::KeepAlive));
    assert_eq!(m.state_of("10.0.0.1:179"), Some(State::Established));

    // and the peer still counts as taken
    assert_eq!(m.create_session("10.0.0.1:179").unwrap_err().kind, ErrorKind::DuplicateSession);
    assert_eq!(m.accept_session("10.0.0.1:179").unwrap_err().kind, ErrorKind::DuplicateSession);
    assert_eq!(m.state_of("10.0.0.1:179"), Some(State::Established));
}

#[test]
fn manager_accepted_session_starts_active() {
    let mut m = ConnectionManager::new(local());
    assert_eq!(m.accept_session(PEER), Ok(()));
    assert_eq!(m.state_of(PEER), Some(State::Active));
    let s = m.session(PEER).unwrap();
    assert_eq!(s.remote, PEER);
    assert_eq!(s.local, local());
    assert_eq!(s.hold_timer, None);
    assert_eq!(m.create_session(PEER).unwrap_err().kind, ErrorKind::DuplicateSession);
}

#[test]
fn manager_keeps_peers_apart() {
    let mut m = ConnectionManager::new(local());
    m.create_session(PEER).unwrap();
    m.accept_session(OTHER).unwrap();
    assert_eq!(m.len(), 2);
    m.deliver(PEER, Event::TransportConnected);
    assert_eq!(m.state_of(PEER), Some(State::OpenSent));
    assert_eq!(m.state_of(OTHER), Some(State::Active));
    // one session fails; the other goes on
    let actions = m.deliver(PEER, Event::DecodeFailed(Error::new(ErrorKind::MalformedMarker)));
    assert_eq!(actions, teardown_actions());
    assert_eq!(m.state_of(PEER), None);
    assert_eq!(m.state_of(OTHER), Some(State::Active));
    assert_eq!(m.len(), 1);
}

#[test]
fn manager_deliver_returns_the_actions_of_the_step() {
    let mut m = ConnectionManager::new(local());
    m.create_session(PEER).unwrap();
    let actions = m.deliver(PEER, Event::TransportConnected);
    assert_eq!(
        actions,
        vec![Action::Send(Message::Open(local().open())), Action::StartHoldTimer(240)]
    );
    let actions = m.deliver(PEER, Event::MessageReceived(Message::Open(peer_open())));
    assert_eq!(actions, vec![Action::Send(Message::KeepAlive), Action::StartHoldTimer(30)]);
    let s = m.session(PEER).unwrap();
    assert_eq!(s.hold_time, 30);
    assert_eq!(s.remote_asn, 64511);
    assert_eq!(s.bgp_id, 22);
    assert_eq!(s.hold_timer, Some(30));
}

#[test]
fn manager_session_that_goes_idle_leaves_the_registry() {
    let mut m = ConnectionManager::new(local());
    m.create_session(PEER).unwrap();
    m.deliver(PEER, Event::TransportConnected);
    m.deliver(PEER, Event::MessageReceived(Message::Open(peer_open())));
    let actions = m.deliver(PEER, Event::MessageReceived(Message::Notification(vec![6, 2])));
    assert_eq!(actions, teardown_actions());
    assert_eq!(m.state_of(PEER), None);
    assert_eq!(m.len(), 0);
    // a timer that fires late finds no session
    assert!(m.deliver(PEER, Event::HoldTimerExpired).is_empty());
    assert_eq!(m.len(), 0);
    // and the peer's place is free again
    assert_eq!(m.create_session(PEER), Ok(()));
    assert_eq!(m.state_of(PEER), Some(State::Connect));
}

#[test]
fn manager_deliver_to_an_unknown_peer_does_nothing() {
    let mut m = ConnectionManager::new(local());
    m.create_session(PEER).unwrap();
    assert!(m.deliver(OTHER, Event::TransportConnected).is_empty());
    assert_eq!(m.len(), 1);
    assert_eq!(m.state_of(PEER), Some(State::Connect));
    assert_eq!(m.state_of(OTHER), None);
}

#[test]
fn manager_remove_session_tears_down() {
    let mut m = ConnectionManager::new(local());
    m.create_session(PEER).unwrap();
    m.accept_session(OTHER).unwrap();
    assert_eq!(m.remove_session(PEER), teardown_actions());
    assert_eq!(m.state_of(PEER), None);
    assert_eq!(m.state_of(OTHER), Some(State::Active));
    assert!(m.remove_session(PEER).is_empty());
    assert_eq!(m.len(), 1);
}

#[test]
fn manager_run_carries_out_commands() {
    let mut m = ConnectionManager::new(local());
    assert_eq!(m.run(Command::Create(PEER.to_string())), Ok(vec![]));
    assert_eq!(
        m.run(Command::Create(PEER.to_string())),
        Err(Error::new(ErrorKind::DuplicateSession))
    );
    assert_eq!(
        m.run(Command::Accept(PEER.to_string())),
        Err(Error::new(ErrorKind::DuplicateSession))
    );
    assert_eq!(m.run(Command::Accept(OTHER.to_string())), Ok(vec![]));
    assert_eq!(m.state_of(PEER), Some(State::Connect));
    assert_eq!(m.state_of(OTHER), Some(State::Active));
    assert_eq!(
        m.run(Command::Deliver(OTHER.to_string(), Event::TransportConnected)),
        Ok(vec![Action::Send(Message::Open(local().open())), Action::StartHoldTimer(240)])
    );
    assert_eq!(m.state_of(OTHER), Some(State::OpenSent));
    assert_eq!(
        m.run(Command::Deliver(OTHER.to_string(), Event::HoldTimerExpired)),
        Ok(teardown_actions())
    );
    assert_eq!(m.state_of(OTHER), None);
    assert_eq!(m.run(Command::Remove(PEER.to_string())), Ok(teardown_actions()));
    assert_eq!(m.run(Command::Remove(PEER.to_string())), Ok(vec![]));
    assert_eq!(m.len(), 0);
    assert_eq!(m.local(), local());
}
