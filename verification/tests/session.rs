use rbgp::messages::Error;
use rbgp::messages::ErrorKind;
use rbgp::messages::Message;
use rbgp::messages::Open;
use rbgp::messages::Route;
use rbgp::messages::Update;
use rbgp::rbgp::handle;
use rbgp::rbgp::session::min_hold_time;
use rbgp::rbgp::session::PROVISIONAL_HOLD_TIME;
use rbgp::rbgp::Action;
use rbgp::rbgp::Event;
use rbgp::rbgp::LocalConfig;
use rbgp::rbgp::Session;
use rbgp::rbgp::State;

const PEER: &str = "10.0.0.1:179";

fn local() -> LocalConfig {
    LocalConfig { asn: 64512, hold_time: 90, bgp_id: 0x0A000002 }
}

fn peer_open(hold_time: u16) -> Open {
    Open { version: 4, asn: 64511, hold_time, bgp_id: 22, optional_parameters: None }
}

fn teardown_actions() -> Vec<Action> {
    vec![Action::CancelTimers, Action::CloseTransport, Action::ReleaseSession]
}

fn in_state(state: State) -> Session {
    let mut s = Session::outbound(PEER, local());
    if state == State::Connect {
        return s;
    }
    if state == State::Active {
        return Session::inbound(PEER, local());
    }
    if state == State::Idle {
        handle(&mut s, Event::TransportFailed);
        return s;
    }
    handle(&mut s, Event::TransportConnected);
    if state == State::OpenSent {
        return s;
    }
    handle(&mut s, Event::MessageReceived(Message::Open(peer_open(30))));
    if state == State::OpenConfirm {
        return s;
    }
    handle(&mut s, Event::MessageReceived(Message::KeepAlive));
    s
}

fn all_states() -> [State; 6] {
    [
        State::Idle,
        State::Connect,
        State::Active,
        State::OpenSent,
        State::OpenConfirm,
        State::Established,
    ]
}

fn sample_update() -> Update {
    Update {
        withdrawn_routes: vec![Route { length: 8, prefix: vec![10] }],
        path_attributes: vec![],
        nlri: vec![Route { length: 24, prefix: vec![192, 168, 1] }],
    }
}

fn all_events() -> Vec<Event> {
    vec![
        Event::TransportConnected,
        Event::MessageReceived(Message::Open(peer_open(30))),
        Event::MessageReceived(Message::Open(peer_open(1))),
        Event::MessageReceived(Message::Update(sample_update())),
        Event::MessageReceived(Message::Notification(vec![6, 2])),
        Event::MessageReceived(Message::KeepAlive),
        Event::DecodeFailed(Error::new(ErrorKind::MalformedMarker)),
        Event::HoldTimerExpired,
        Event::TransportFailed,
    ]
}

#[test]
fn session_starts_in_connect_or_active() {
    let s = Session::outbound(PEER, local());
    assert_eq!(s.current_state, State::Connect);
    assert_eq!(s.remote, PEER);
    assert_eq!(s.bgp_id, 0);
    assert_eq!(s.remote_asn, 0);
    assert_eq!(s.hold_time, 0);
    assert_eq!(s.hold_timer, None);
    assert_eq!(s.local, local());

    let s = Session::inbound(PEER, local());
    assert_eq!(s.current_state, State::Active);
    assert_eq!(s.remote, PEER);
    assert_eq!(s.hold_timer, None);
}

#[test]
fn session_duplicate_is_equal() {
    let s = in_state(State::OpenConfirm);
    assert_eq!(s.duplicate(), s);
}

#[test]
fn session_helper_reaches_every_state() {
    for state in all_states() {
        assert_eq!(in_state(state).current_state, state);
    }
}

#[test]
fn session_connected_sends_open_and_starts_the_hold_timer() {
    for start in [State::Connect, State::Active] {
        let mut s = in_state(start);
        let actions = handle(&mut s, Event::TransportConnected);
        assert_eq!(s.current_state, State::OpenSent);
        assert_eq!(s.hold_timer, Some(240));
        assert_eq!(PROVISIONAL_HOLD_TIME, 240);
        let sent = Open {
            version: 4,
            asn: 64512,
            hold_time: 90,
            bgp_id: 0x0A000002,
            optional_parameters: None,
        };
        assert_eq!(
            actions,
            vec![Action::Send(Message::Open(sent)), Action::StartHoldTimer(240)]
        );
    }
}

#[test]
fn session_open_negotiates_the_smaller_hold_time() {
    let mut s = in_state(State::OpenSent);
    let actions = handle(&mut s, Event::MessageReceived(Message::Open(peer_open(30))));
    assert_eq!(s.current_state, State::OpenConfirm);
    assert_eq!(s.hold_time, 30);
    assert_eq!(s.hold_timer, Some(30));
    assert_eq!(s.remote_asn, 64511);
    assert_eq!(s.bgp_id, 22);
    assert_eq!(actions, vec![Action::Send(Message::KeepAlive), Action::StartHoldTimer(30)]);

    let mut s = in_state(State::OpenSent);
    let actions = handle(&mut s, Event::MessageReceived(Message::Open(peer_open(256))));
    assert_eq!(s.hold_time, 90);
    assert_eq!(s.hold_timer, Some(90));
    assert_eq!(actions, vec![Action::Send(Message::KeepAlive), Action::StartHoldTimer(90)]);

    let mut s = in_state(State::OpenSent);
    handle(&mut s, Event::MessageReceived(Message::Open(peer_open(0))));
    assert_eq!(s.current_state, State::OpenConfirm);
    assert_eq!(s.hold_time, 0);
}

#[test]
fn session_min_hold_time_values() {
    assert_eq!(min_hold_time(90, 30), 30);
    assert_eq!(min_hold_time(30, 90), 30);
    assert_eq!(min_hold_time(0, 90), 0);
    assert_eq!(min_hold_time(7, 7), 7);
    assert_eq!(min_hold_time(65535, 65534), 65534);
}

#[test]
fn session_unacceptable_open_tears_down() {
    let bad = [
        Open { version: 3, ..peer_open(30) },
        peer_open(1),
        peer_open(2),
        Open { optional_parameters: Some(vec![2, 0]), ..peer_open(30) },
    ];
    for o in bad {
        let mut s = in_state(State::OpenSent);
        let actions = handle(&mut s, Event::MessageReceived(Message::Open(o)));
        assert_eq!(s.current_state, State::Idle);
        assert_eq!(s.hold_timer, None);
        assert_eq!(actions, teardown_actions());
    }
}

#[test]
fn session_unsupported_optional_parameters_in_open_sent_tear_down() {
    let mut s = in_state(State::OpenSent);
    let failure = Open::from_bytes(&[4, 0xFB, 0xFF, 1, 0, 0, 0, 0, 22, 4, 2, 2, 1, 0]).unwrap_err();
    assert_eq!(failure.kind, ErrorKind::UnsupportedOptionalParameters);
    let actions = handle(&mut s, Event::DecodeFailed(failure));
    assert_eq!(s.current_state, State::Idle);
    assert_eq!(actions, teardown_actions());
}

#[test]
fn session_keepalive_confirms_the_open() {
    let mut s = in_state(State::OpenConfirm);
    let actions = handle(&mut s, Event::MessageReceived(Message::KeepAlive));
    assert_eq!(s.current_state, State::Established);
    assert_eq!(s.hold_timer, Some(30));
    assert_eq!(actions, vec![Action::StartHoldTimer(30)]);
}

#[test]
fn session_keepalive_in_established_restarts_the_hold_timer() {
    let mut s = in_state(State::Established);
    let before = s.duplicate();
    let actions = handle(&mut s, Event::MessageReceived(Message::KeepAlive));
    assert_eq!(s, before);
    assert_eq!(s.current_state, State::Established);
    assert_eq!(actions, vec![Action::StartHoldTimer(30)]);
}

#[test]
fn session_update_in_established_is_handed_on() {
    let mut s = in_state(State::Established);
    let before = s.duplicate();
    let actions = handle(&mut s, Event::MessageReceived(Message::Update(sample_update())));
    assert_eq!(s, before);
    assert_eq!(s.hold_time, 30);
    assert_eq!(s.remote_asn, 64511);
    assert_eq!(
        actions,
        vec![Action::DeliverUpdate(sample_update()), Action::StartHoldTimer(30)]
    );
}

#[test]
fn session_open_confirm_notification_goes_idle() {
    let mut s = in_state(State::OpenConfirm);
    assert_eq!(s.hold_timer, Some(30));
    let actions = handle(&mut s, Event::MessageReceived(Message::Notification(vec![6, 2])));
    assert_eq!(s.current_state, State::Idle);
    assert_eq!(s.hold_timer, None);
    assert_eq!(
        actions,
        vec![Action::CancelTimers, Action::CloseTransport, Action::ReleaseSession]
    );
    // the Hold timer firing late finds nothing to do
    let before = s.duplicate();
    let actions = handle(&mut s, Event::HoldTimerExpired);
    assert!(actions.is_empty());
    assert_eq!(s, before);
    assert_eq!(s.current_state, State::Idle);
}

#[test]
fn session_fatal_events_tear_down_from_every_state_but_idle() {
    for state in all_states() {
        if state == State::Idle {
            continue;
        }
        let fatal = [
            Event::HoldTimerExpired,
            Event::TransportFailed,
            Event::MessageReceived(Message::Notification(vec![])),
            Event::DecodeFailed(Error::new(ErrorKind::TruncatedRouteList)),
            Event::DecodeFailed(Error::new(ErrorKind::IncompleteRead)),
        ];
        for event in fatal {
            let mut s = in_state(state);
            let actions = handle(&mut s, event);
            assert_eq!(s.current_state, State::Idle);
            assert_eq!(s.hold_timer, None);
            assert_eq!(s.remote, PEER);
            assert_eq!(actions, teardown_actions());
        }
    }
}

#[test]
fn session_idle_ignores_everything() {
    for event in all_events() {
        let mut s = in_state(State::Idle);
        let before = s.duplicate();
        let actions = handle(&mut s, event);
        assert!(actions.is_empty());
        assert_eq!(s, before);
    }
}

#[test]
fn session_unlisted_events_change_nothing() {
    let unlisted = [
        (State::Connect, 1usize),
        (State::Connect, 3),
        (State::Connect, 5),
        (State::Active, 1),
        (State::Active, 3),
        (State::Active, 5),
        (State::OpenSent, 0),
        (State::OpenSent, 3),
        (State::OpenSent, 5),
        (State::OpenConfirm, 0),
        (State::OpenConfirm, 1),
        (State::OpenConfirm, 2),
        (State::OpenConfirm, 3),
        (State::Established, 0),
        (State::Established, 1),
        (State::Established, 2),
    ];
    for (state, which) in unlisted {
        let mut s = in_state(state);
        let before = s.duplicate();
        let event = all_events().swap_remove(which);
        let actions = handle(&mut s, event);
        assert!(actions.is_empty());
        assert_eq!(s, before);
    }
}

#[test]
fn session_every_pair_moves_as_listed_or_stays() {
    for state in all_states() {
        for which in 0..all_events().len() {
            let mut s = in_state(state);
            let event = all_events().swap_remove(which);
            handle(&mut s, event);
            let next = s.current_state;
            let listed = match (state, which) {
                (State::Idle, _) => State::Idle,
                (_, 4) | (_, 6) | (_, 7) | (_, 8) => State::Idle,
                (State::Connect, 0) | (State::Active, 0) => State::OpenSent,
                (State::OpenSent, 1) => State::OpenConfirm,
                (State::OpenSent, 2) => State::Idle,
                (State::OpenConfirm, 5) => State::Established,
                (unchanged, _) => unchanged,
            };
            assert_eq!(next, listed);
            // the Hold timer runs only once the transport stands
            if s.hold_timer.is_some() {
                assert!(
                    next == State::OpenSent
                        || next == State::OpenConfirm
                        || next == State::Established
                );
            }
            assert_eq!(s.remote, PEER);
            assert_eq!(s.local, local());
        }
    }
}

#[test]
fn session_local_open_is_what_the_speaker_announces() {
    let o = local().open();
    assert_eq!(
        o,
        Open { version: 4, asn: 64512, hold_time: 90, bgp_id: 0x0A000002, optional_parameters: None }
    );
    assert!(o.is_acceptable());
}
