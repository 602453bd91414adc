//! Observer sessions: the decisions of one streaming session, and the set of
//! sessions that the server supervises. The transport (timer, socket, send,
//! receive) is driven from outside: it reports each event and performs the
//! action that comes back.
use vstd::prelude::*;

verus! {

/// Interval of the broadcast timer, in milliseconds.
pub const BROADCAST_INTERVAL_MS: u64 = 200;

#[derive(Debug, Clone, Copy, PartialEq, Eq, Structural)]
pub enum SessionState {
    Open,
    Closed,
}

/// What the observer's side of the connection delivered.
#[derive(Debug, Clone, Copy, PartialEq, Eq, Structural)]
pub enum Incoming {
    /// A close frame.
    Close,
    /// The connection ended without one.
    Dropped,
    /// Any other message; its content is not interpreted.
    Message,
    /// A transport error on receive.
    Error,
}

#[derive(Debug, Clone, Copy, PartialEq, Eq, Structural)]
pub enum SessionEvent {
    /// The broadcast timer fired.
    Tick,
    /// The snapshot document of this tick was sent.
    Sent,
    /// Sending the snapshot document failed.
    SendFailed,
    /// Something arrived from the observer.
    Received(Incoming),
}

#[derive(Debug, Clone, Copy, PartialEq, Eq, Structural)]
pub enum SessionAction {
    /// Read the store, encode the combined document and send it.
    SendSnapshot,
    /// Nothing to do until the next event.
    Wait,
    /// End the session.
    Stop,
}

/// One step of a session: a tick sends the latest snapshot, a failed send or
/// a close or dropped connection ends the session, anything else waits. A
/// closed session stays closed.
pub open spec fn step_spec(s: SessionState, e: SessionEvent) -> (SessionState, SessionAction) {
    match s {
        SessionState::Closed => (SessionState::Closed, SessionAction::Stop),
        SessionState::Open => match e {
            SessionEvent::Tick => (SessionState::Open, SessionAction::SendSnapshot),
            SessionEvent::Sent => (SessionState::Open, SessionAction::Wait),
            SessionEvent::SendFailed => (SessionState::Closed, SessionAction::Stop),
            SessionEvent::Received(Incoming::Close) => (SessionState::Closed, SessionAction::Stop),
            SessionEvent::Received(Incoming::Dropped) => (SessionState::Closed, SessionAction::Stop),
            SessionEvent::Received(_) => (SessionState::Open, SessionAction::Wait),
        },
    }
}

/// Decides the next state and action of a session.
pub fn session_step(s: SessionState, e: SessionEvent) -> (r: (SessionState, SessionAction))
    ensures
        r == step_spec(s, e),
{
    match s {
        SessionState::Closed => (SessionState::Closed, SessionAction::Stop),
        SessionState::Open => match e {
            SessionEvent::Tick => (SessionState::Open, SessionAction::SendSnapshot),
            SessionEvent::Sent => (SessionState::Open, SessionAction::Wait),
            SessionEvent::SendFailed => (SessionState::Closed, SessionAction::Stop),
            SessionEvent::Received(Incoming::Close) => (SessionState::Closed, SessionAction::Stop),
            SessionEvent::Received(Incoming::Dropped) => (SessionState::Closed, SessionAction::Stop),
            SessionEvent::Received(_) => (SessionState::Open, SessionAction::Wait),
        },
    }
}

#[derive(Debug, Clone, Copy, PartialEq, Eq, Structural)]
pub struct Session {
    pub id: u64,
    pub state: SessionState,
}

/// `s1` is `s0` after session `id` handled event `e`: that session takes its
/// step and every other session is left as it was.
pub open spec fn after_event(s0: Seq<Session>, s1: Seq<Session>, id: u64, e: SessionEvent) -> bool {
    &&& s1.len() == s0.len()
    &&& forall|k: int|
        0 <= k < s0.len() ==> #[trigger] s1[k] == if s0[k].id == id {
            Session { id, state: step_spec(s0[k].state, e).0 }
        } else {
            s0[k]
        }
}

/// The supervised set of observer sessions.
pub struct SessionSet {
    sessions: Vec<Session>,
    next_id: u64,
}

impl SessionSet {
    pub closed spec fn spec_sessions(&self) -> Seq<Session> {
        self.sessions@
    }

    pub closed spec fn spec_next_id(&self) -> u64 {
        self.next_id
    }

    /// Ids are distinct, increasing, and below the next id to hand out.
    pub open spec fn wf(&self) -> bool {
        &&& forall|a: int, b: int|
            0 <= a < b < self.spec_sessions().len() ==> #[trigger] self.spec_sessions()[a].id
                < #[trigger] self.spec_sessions()[b].id
        &&& forall|a: int|
            0 <= a < self.spec_sessions().len() ==> #[trigger] self.spec_sessions()[a].id
                < self.spec_next_id()
    }

    pub fn new() -> (r: Self)
        ensures
            r.wf(),
            r.spec_sessions().len() == 0,
    {
        SessionSet { sessions: Vec::new(), next_id: 0 }
    }

    /// Number of sessions held, open or closed.
    pub fn len(&self) -> (r: usize)
        ensures
            r == self.spec_sessions().len(),
    {
        self.sessions.len()
    }

    /// Opens a session for a new observer and returns its id; `None` once
    /// every id has been handed out.
    pub fn connect(&mut self) -> (r: Option<u64>)
        requires
            old(self).wf(),
        ensures
            final(self).wf(),
            old(self).spec_next_id() == u64::MAX <==> r is None,
            r is None ==> final(self).spec_sessions() == old(self).spec_sessions(),
            r matches Some(id) ==> final(self).spec_sessions() == old(self).spec_sessions().push(
                Session { id, state: SessionState::Open },
            ),
    {
        if self.next_id == u64::MAX {
            return None;
        }
        let id = self.next_id;
        self.sessions.push(Session { id, state: SessionState::Open });
        self.next_id = id + 1;
        Some(id)
    }

    /// State of session `id`, if the set holds it.
    pub fn state_of(&self, id: u64) -> (r: Option<SessionState>)
        requires
            self.wf(),
        ensures
            r matches Some(st) ==> exists|k: int|
                0 <= k < self.spec_sessions().len() && #[trigger] self.spec_sessions()[k] == (
                Session { id, state: st }),
            r is None ==> forall|k: int|
                0 <= k < self.spec_sessions().len() ==> #[trigger] self.spec_sessions()[k].id != id,
    {
        let mut i: usize = 0;
        while i < self.sessions.len()
            invariant
                i <= self.sessions@.len(),
                forall|k: int| 0 <= k < i ==> #[trigger] self.sessions@[k].id != id,
            decreases self.sessions@.len() - i,
        {
            if self.sessions[i].id == id {
                return Some(self.sessions[i].state);
            }
            i = i + 1;
        }
        None
    }

    /// Drops session `id` from the set once its connection is gone; a set
    /// without it is left as it is.
    pub fn remove(&mut self, id: u64)
        requires
            old(self).wf(),
        ensures
            final(self).wf(),
            final(self).spec_next_id() == old(self).spec_next_id(),
            (exists|k: int|
                0 <= k < old(self).spec_sessions().len() && #[trigger] old(self).spec_sessions()[k].id
                    == id && final(self).spec_sessions() == old(self).spec_sessions().remove(k))
                || (final(self).spec_sessions() == old(self).spec_sessions() && forall|k: int|
                0 <= k < old(self).spec_sessions().len() ==> #[trigger] old(self).spec_sessions()[k].id
                    != id),
    {
        let mut i: usize = 0;
        while i < self.sessions.len()
            invariant
                self.sessions@ == old(self).sessions@,
                self.next_id == old(self).next_id,
                old(self).wf(),
                i <= self.sessions@.len(),
                forall|k: int| 0 <= k < i ==> #[trigger] self.sessions@[k].id != id,
            decreases self.sessions@.len() - i,
        {
            if self.sessions[i].id == id {
                let ghost before = self.sessions@;
                self.sessions.remove(i);
                assert(self.sessions@ == before.remove(i as int));
                assert forall|a: int, b: int|
                    0 <= a < b < self.sessions@.len() implies #[trigger] self.sessions@[a].id
                    < #[trigger] self.sessions@[b].id by {
                    let a0 = if a < i { a } else { a + 1 };
                    let b0 = if b < i { b } else { b + 1 };
                    assert(before[a0].id < before[b0].id);
                }
                assert forall|a: int| 0 <= a < self.sessions@.len() implies #[trigger] self.sessions@[a].id
                    < self.next_id by {
                    let a0 = if a < i { a } else { a + 1 };
                    assert(before[a0].id < self.next_id);
                }
                return;
            }
            i = i + 1;
        }
    }

    /// Session `id` handles event `e`; returns its action (`Stop` for an id
    /// that the set does not hold). No other session is touched.
    pub fn on_event(&mut self, id: u64, e: SessionEvent) -> (r: SessionAction)
        requires
            old(self).wf(),
        ensures
            final(self).wf(),
            final(self).spec_next_id() == old(self).spec_next_id(),
            after_event(old(self).spec_sessions(), final(self).spec_sessions(), id, e),
            (exists|k: int|
                0 <= k < old(self).spec_sessions().len() && #[trigger] old(self).spec_sessions()[k].id
                    == id && r == step_spec(old(self).spec_sessions()[k].state, e).1)
                || (r == SessionAction::Stop && forall|k: int|
                0 <= k < old(self).spec_sessions().len() ==> #[trigger] old(self).spec_sessions()[k].id
                    != id),
    {
        let mut i: usize = 0;
        while i < self.sessions.len()
            invariant
                self.sessions@ == old(self).sessions@,
                self.next_id == old(self).next_id,
                old(self).wf(),
                i <= self.sessions@.len(),
                forall|k: int| 0 <= k < i ==> #[trigger] self.sessions@[k].id != id,
            decreases self.sessions@.len() - i,
        {
            if self.sessions[i].id == id {
                let (st, action) = session_step(self.sessions[i].state, e);
                self.sessions.set(i, Session { id, state: st });
                assert forall|k: int| 0 <= k < self.sessions@.len() && k != i implies #[trigger] old(
                    self,
                ).sessions@[k].id != id by {
                    if k < i {
                    } else {
                        assert(old(self).spec_sessions()[i as int].id < old(self).spec_sessions()[k].id);
                    }
                }
                assert forall|k: int| 0 <= k < self.sessions@.len() implies #[trigger] self.sessions@[k].id
                    == old(self).sessions@[k].id by {}
                return action;
            }
            i = i + 1;
        }
        assert(self.sessions@ =~= old(self).sessions@);
        SessionAction::Stop
    }
}

/// Sessions are independent: when one observer's session ends (a close, a
/// dropped connection, a failed send), every other session that was open is
/// still open and is still sent the snapshot at its next tick.
pub proof fn lemma_sessions_independent(
    s0: Seq<Session>,
    s1: Seq<Session>,
    id: u64,
    e: SessionEvent,
    k: int,
)
    requires
        after_event(s0, s1, id, e),
        0 <= k < s0.len(),
        s0[k].id != id,
        s0[k].state == SessionState::Open,
    ensures
        s1[k] == s0[k],
        step_spec(s1[k].state, SessionEvent::Tick) == (
        SessionState::Open,
        SessionAction::SendSnapshot,
        ),
{
    assert(s1[k] == s0[k]);
}

} // verus!
