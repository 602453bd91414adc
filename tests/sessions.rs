use daneel_web::session::{
    session_step, Incoming, SessionAction, SessionEvent, SessionSet, SessionState,
};

#[test]
fn tick_sends_and_close_stops() {
    assert_eq!(
        session_step(SessionState::Open, SessionEvent::Tick),
        (SessionState::Open, SessionAction::SendSnapshot)
    );
    assert_eq!(
        session_step(SessionState::Open, SessionEvent::Sent),
        (SessionState::Open, SessionAction::Wait)
    );
    assert_eq!(
        session_step(SessionState::Open, SessionEvent::SendFailed),
        (SessionState::Closed, SessionAction::Stop)
    );
    assert_eq!(
        session_step(SessionState::Open, SessionEvent::Received(Incoming::Close)),
        (SessionState::Closed, SessionAction::Stop)
    );
    assert_eq!(
        session_step(SessionState::Open, SessionEvent::Received(Incoming::Dropped)),
        (SessionState::Closed, SessionAction::Stop)
    );
    assert_eq!(
        session_step(SessionState::Open, SessionEvent::Received(Incoming::Message)),
        (SessionState::Open, SessionAction::Wait)
    );
    assert_eq!(
        session_step(SessionState::Open, SessionEvent::Received(Incoming::Error)),
        (SessionState::Open, SessionAction::Wait)
    );
    assert_eq!(
        session_step(SessionState::Closed, SessionEvent::Tick),
        (SessionState::Closed, SessionAction::Stop)
    );
}

#[test]
fn closing_one_session_leaves_others() {
    let mut set = SessionSet::new();
    let a = set.connect().unwrap();
    let b = set.connect().unwrap();
    let c = set.connect().unwrap();
    assert_ne!(a, b);
    assert_eq!(set.on_event(b, SessionEvent::Received(Incoming::Close)), SessionAction::Stop);
    assert_eq!(set.state_of(b), Some(SessionState::Closed));
    assert_eq!(set.on_event(a, SessionEvent::Tick), SessionAction::SendSnapshot);
    assert_eq!(set.on_event(c, SessionEvent::Tick), SessionAction::SendSnapshot);
    assert_eq!(set.on_event(a, SessionEvent::SendFailed), SessionAction::Stop);
    assert_eq!(set.on_event(c, SessionEvent::Tick), SessionAction::SendSnapshot);
    set.remove(b);
    set.remove(a);
    assert_eq!(set.len(), 1);
    assert_eq!(set.state_of(a), None);
    assert_eq!(set.state_of(c), Some(SessionState::Open));
    assert_eq!(set.on_event(a, SessionEvent::Tick), SessionAction::Stop);
    assert_eq!(set.on_event(c, SessionEvent::Tick), SessionAction::SendSnapshot);
}
