use vstd::prelude::*;

verus! {

/// What happens to the capture popup and its sessions.
#[derive(Debug, Clone, Copy, PartialEq, Eq, Structural)]
pub enum SessionEvent {
    /// A hotkey press captured a clip: a new session wants a popup.
    Captured,
    /// The classification started by this session came back.
    Classified(u64),
    /// The user submitted this session's popup.
    Submitted(u64),
    /// This session's popup closed without a submission.
    Dismissed(u64),
}

/// What the caller is to do in response to an event.
#[derive(Debug, Clone, Copy, PartialEq, Eq, Structural)]
pub enum SessionAction {
    /// Close the popup of `close`, if any, then open one for `session` and
    /// start its classification.
    OpenPopup { session: u64, close: Option<u64> },
    /// Hand the classification to this session's open popup.
    Deliver(u64),
    /// Store this session's clip, then close its popup.
    Persist(u64),
    /// Nothing: the event concerns a session whose popup is gone.
    Ignore,
}

/// Keeps at most one capture popup open and tells which session owns it, so
/// that late results of closed sessions are dropped.
#[derive(Debug, Clone, Copy, PartialEq, Eq, Structural)]
pub struct PopupCoordinator {
    /// The id the next session gets; ids are never reused.
    pub next_session: u64,
    /// The session whose popup is open.
    pub open: Option<u64>,
}

impl PopupCoordinator {
    pub open spec fn wf(self) -> bool {
        self.open matches Some(s) ==> s < self.next_session
    }

    /// Whether session `s` was opened once and its popup is gone.
    pub open spec fn closed(self, s: u64) -> bool {
        s < self.next_session && self.open != Some(s)
    }

    pub open spec fn next_of(self, e: SessionEvent) -> PopupCoordinator {
        match e {
            SessionEvent::Captured => if self.next_session < u64::MAX {
                PopupCoordinator {
                    next_session: (self.next_session + 1) as u64,
                    open: Some(self.next_session),
                }
            } else {
                self
            },
            SessionEvent::Classified(_) => self,
            SessionEvent::Submitted(s) | SessionEvent::Dismissed(s) => if self.open == Some(s) {
                PopupCoordinator { open: None, ..self }
            } else {
                self
            },
        }
    }

    pub open spec fn action_of(self, e: SessionEvent) -> SessionAction {
        match e {
            SessionEvent::Captured => if self.next_session < u64::MAX {
                SessionAction::OpenPopup { session: self.next_session, close: self.open }
            } else {
                SessionAction::Ignore
            },
            SessionEvent::Classified(s) => if self.open == Some(s) {
                SessionAction::Deliver(s)
            } else {
                SessionAction::Ignore
            },
            SessionEvent::Submitted(s) => if self.open == Some(s) {
                SessionAction::Persist(s)
            } else {
                SessionAction::Ignore
            },
            SessionEvent::Dismissed(_) => SessionAction::Ignore,
        }
    }

    /// The actions that a run of events yields, in order.
    pub open spec fn run(self, events: Seq<SessionEvent>) -> Seq<SessionAction>
        decreases events.len(),
    {
        if events.len() == 0 {
            Seq::empty()
        } else {
            seq![self.action_of(events[0])] + self.next_of(events[0]).run(events.drop_first())
        }
    }

    pub fn new() -> (r: PopupCoordinator)
        ensures
            r.wf(),
            r.next_session == 0,
            r.open is None,
    {
        PopupCoordinator { next_session: 0, open: None }
    }

    /// Takes one event and says what to do.
    pub fn handle(&mut self, e: SessionEvent) -> (r: SessionAction)
        requires
            old(self).wf(),
        ensures
            final(self).wf(),
            *final(self) == old(self).next_of(e),
            r == old(self).action_of(e),
    {
        match e {
            SessionEvent::Captured => {
                if self.next_session < u64::MAX {
                    let session = self.next_session;
                    let close = self.open;
                    self.next_session = self.next_session + 1;
                    self.open = Some(session);
                    SessionAction::OpenPopup { session, close }
                } else {
                    SessionAction::Ignore
                }
            },
            SessionEvent::Classified(s) => {
                if self.open == Some(s) {
                    SessionAction::Deliver(s)
                } else {
                    SessionAction::Ignore
                }
            },
            SessionEvent::Submitted(s) => {
                if self.open == Some(s) {
                    self.open = None;
                    SessionAction::Persist(s)
                } else {
                    SessionAction::Ignore
                }
            },
            SessionEvent::Dismissed(s) => {
                if self.open == Some(s) {
                    self.open = None;
                }
                SessionAction::Ignore
            },
        }
    }
}

/// Every step keeps the coordinator well formed, and a closed session stays
/// closed.
proof fn lemma_step(c: PopupCoordinator, e: SessionEvent, s: u64)
    requires
        c.wf(),
    ensures
        c.next_of(e).wf(),
        c.closed(s) ==> c.next_of(e).closed(s),
        c.closed(s) ==> c.action_of(e) != SessionAction::Persist(s),
        c.closed(s) ==> c.action_of(e) != SessionAction::Deliver(s),
{
}

/// Once a session's popup is gone, no later event stores its clip or hands
/// it a classification.
pub proof fn lemma_closed_session_is_inert(c: PopupCoordinator, s: u64, events: Seq<SessionEvent>)
    requires
        c.wf(),
        c.closed(s),
    ensures
        forall|k: int| 0 <= k < c.run(events).len() ==> c.run(events)[k] != SessionAction::Persist(s)
            && c.run(events)[k] != SessionAction::Deliver(s),
    decreases events.len(),
{
    if events.len() > 0 {
        lemma_step(c, events[0], s);
        lemma_closed_session_is_inert(c.next_of(events[0]), s, events.drop_first());
        assert forall|k: int| 0 <= k < c.run(events).len() implies c.run(events)[k]
            != SessionAction::Persist(s) && c.run(events)[k] != SessionAction::Deliver(s) by {
            if k > 0 {
                assert(c.run(events)[k] == c.next_of(events[0]).run(events.drop_first())[k - 1]);
            }
        }
    }
}

/// A popup dismissed before its classification came back never leads to a
/// stored record, and the late result is dropped: whatever events follow,
/// none of the actions stores or delivers for that session.
pub proof fn lemma_dismissed_never_persists(c: PopupCoordinator, s: u64, events: Seq<SessionEvent>)
    requires
        c.wf(),
        c.open == Some(s),
    ensures
        c.action_of(SessionEvent::Dismissed(s)) == SessionAction::Ignore,
        forall|k: int| 0 <= k < c.next_of(SessionEvent::Dismissed(s)).run(events).len() ==> {
            &&& c.next_of(SessionEvent::Dismissed(s)).run(events)[k] != SessionAction::Persist(s)
            &&& c.next_of(SessionEvent::Dismissed(s)).run(events)[k] != SessionAction::Deliver(s)
        },
{
    lemma_closed_session_is_inert(c.next_of(SessionEvent::Dismissed(s)), s, events);
}

/// Whatever the events, a session's clip is stored at most once.
pub proof fn lemma_persist_at_most_once(c: PopupCoordinator, s: u64, events: Seq<SessionEvent>)
    requires
        c.wf(),
    ensures
        forall|i: int, j: int|
            0 <= i < j < c.run(events).len() && c.run(events)[i] == SessionAction::Persist(s)
                ==> c.run(events)[j] != SessionAction::Persist(s),
    decreases events.len(),
{
    if events.len() > 0 {
        let n = c.next_of(events[0]);
        let rest = events.drop_first();
        lemma_step(c, events[0], s);
        lemma_persist_at_most_once(n, s, rest);
        if c.action_of(events[0]) == SessionAction::Persist(s) {
            lemma_closed_session_is_inert(n, s, rest);
        }
        assert forall|i: int, j: int|
            0 <= i < j < c.run(events).len() && c.run(events)[i] == SessionAction::Persist(s)
                implies c.run(events)[j] != SessionAction::Persist(s) by {
            assert(c.run(events)[j] == n.run(rest)[j - 1]);
            if i > 0 {
                assert(c.run(events)[i] == n.run(rest)[i - 1]);
            }
        }
    }
}

/// A second capture opened while the first still awaits its classification
/// closes the first popup, so one popup is open; whatever events follow, the
/// two sessions store at most one record between them, and only the second
/// can.
pub proof fn lemma_second_capture_supersedes(c: PopupCoordinator, events: Seq<SessionEvent>)
    requires
        c.wf(),
        c.next_session < u64::MAX - 1,
    ensures
        ({
            let first = c.next_session;
            let c1 = c.next_of(SessionEvent::Captured);
            let c2 = c1.next_of(SessionEvent::Captured);
            let acts = c2.run(events);
            &&& c1.open == Some(first)
            &&& c1.action_of(SessionEvent::Captured) == (SessionAction::OpenPopup {
                session: (first + 1) as u64,
                close: Some(first),
            })
            &&& c2.open == Some((first + 1) as u64)
            &&& forall|k: int| 0 <= k < acts.len() ==> acts[k] != SessionAction::Persist(first)
            &&& forall|i: int, j: int|
                0 <= i < j < acts.len() && acts[i] == SessionAction::Persist((first + 1) as u64)
                    ==> acts[j] != SessionAction::Persist((first + 1) as u64)
        }),
{
    let first = c.next_session;
    let c1 = c.next_of(SessionEvent::Captured);
    let c2 = c1.next_of(SessionEvent::Captured);
    lemma_closed_session_is_inert(c2, first, events);
    lemma_persist_at_most_once(c2, (first + 1) as u64, events);
}

} // verus!
