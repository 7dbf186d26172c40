//! PTY Session Controller: the lifecycle of one stream paired with one PTY.
//!
//! A session allocates a PTY pair, spawns the shell with the PTY's subordinate
//! side as its controlling terminal, relays bytes both ways, and — whichever
//! side ended the relay, gracefully or not — reaps the child exactly once
//! before closing.  A failure at any step is local to this one session.  The
//! driver performs the returned action (allocate, spawn, copy, wait) and feeds
//! the outcome back as the next event.

use vstd::prelude::*;
use crate::errors::TunnelError;
use crate::relay::RelayEnd;

verus! {

/// Lifecycle of one PTY session.
#[derive(Clone, Copy, Debug, PartialEq, Eq, Structural)]
pub enum SessionPhase {
    /// The stream was accepted; no PTY exists yet.
    Accepted,
    /// The PTY pair exists; the shell is not spawned yet.
    PtyReady,
    /// The shell runs; bytes are copied both ways.
    Relaying,
    /// The relay ended this way; the child must still be reaped.
    Reaping(RelayEnd),
    /// Torn down: child reaped if one was spawned, PTY freed, stream dropped.
    Closed,
}

/// What the driver observed, fed to the session.
#[derive(Clone, Copy, Debug, PartialEq, Eq, Structural)]
pub enum SessionEvent {
    /// The OS handed out a PTY pair.
    PtyAllocated,
    /// The OS refused to allocate a PTY pair.
    PtyDenied,
    /// The shell was spawned onto the PTY's subordinate side.
    ShellSpawned,
    /// The shell could not be spawned.
    SpawnDenied,
    /// The bidirectional copy ended this way.
    RelayEnded(RelayEnd),
    /// The child process was waited on and has exited.
    ChildReaped,
}

/// What the driver must do next for this session.
#[derive(Clone, Copy, Debug, PartialEq, Eq)]
pub enum SessionAction {
    /// Spawn the shell command onto the PTY's subordinate side.
    SpawnShell,
    /// Start the bidirectional copy between the PTY and the stream.
    StartRelay,
    /// Wait for the child process to exit.
    ReapChild,
    /// Free the PTY, drop the stream, and report this result.
    Finish(Result<(), TunnelError>),
    /// Nothing: the event does not apply in the current phase.
    Stay,
}

/// One session's state at the specification level.
pub struct SessionModel {
    /// Lifecycle phase.
    pub phase: SessionPhase,
    /// Whether a shell was ever spawned.
    pub spawned: bool,
    /// How many times the child has been reaped (waited on).
    pub reaps: nat,
}

/// A session as it starts: stream accepted, nothing allocated or spawned.
pub open spec fn session_init() -> SessionModel {
    SessionModel { phase: SessionPhase::Accepted, spawned: false, reaps: 0 }
}

/// The transition table of one session.  Relay termination — from the PTY side
/// or the stream side, graceful or faulty — always leads through reaping the
/// child before the session closes; failures before the spawn close the
/// session at once, with no child to reap.  Events that do not fit the current
/// phase change nothing.
pub open spec fn session_step(m: SessionModel, ev: SessionEvent) -> (SessionModel, SessionAction) {
    match (m.phase, ev) {
        (SessionPhase::Accepted, SessionEvent::PtyAllocated) => (
            SessionModel { phase: SessionPhase::PtyReady, spawned: m.spawned, reaps: m.reaps },
            SessionAction::SpawnShell,
        ),
        (SessionPhase::Accepted, SessionEvent::PtyDenied) => (
            SessionModel { phase: SessionPhase::Closed, spawned: m.spawned, reaps: m.reaps },
            SessionAction::Finish(Err(TunnelError::PtyAllocation)),
        ),
        (SessionPhase::PtyReady, SessionEvent::ShellSpawned) => (
            SessionModel { phase: SessionPhase::Relaying, spawned: true, reaps: m.reaps },
            SessionAction::StartRelay,
        ),
        (SessionPhase::PtyReady, SessionEvent::SpawnDenied) => (
            SessionModel { phase: SessionPhase::Closed, spawned: m.spawned, reaps: m.reaps },
            SessionAction::Finish(Err(TunnelError::Spawn)),
        ),
        (SessionPhase::Relaying, SessionEvent::RelayEnded(end)) => (
            SessionModel { phase: SessionPhase::Reaping(end), spawned: m.spawned, reaps: m.reaps },
            SessionAction::ReapChild,
        ),
        (SessionPhase::Reaping(end), SessionEvent::ChildReaped) => (
            SessionModel { phase: SessionPhase::Closed, spawned: m.spawned, reaps: m.reaps + 1 },
            SessionAction::Finish(
                if end == RelayEnd::Eof {
                    Ok(())
                } else {
                    Err(TunnelError::Io)
                },
            ),
        ),
        _ => (m, SessionAction::Stay),
    }
}

/// The session after a whole sequence of events.
pub open spec fn session_run(m: SessionModel, evs: Seq<SessionEvent>) -> SessionModel
    decreases evs.len(),
{
    if evs.len() == 0 {
        m
    } else {
        session_run(session_step(m, evs[0]).0, evs.drop_first())
    }
}

/// Internal consistency of one session: the child is reaped at most once, only
/// ever after it was spawned, and a closed session that spawned a child has
/// reaped it exactly once.
pub open spec fn session_wf(m: SessionModel) -> bool {
    &&& m.reaps <= 1
    &&& (!m.spawned ==> m.reaps == 0)
    &&& match m.phase {
        SessionPhase::Accepted => !m.spawned && m.reaps == 0,
        SessionPhase::PtyReady => !m.spawned && m.reaps == 0,
        SessionPhase::Relaying => m.spawned && m.reaps == 0,
        SessionPhase::Reaping(_) => m.spawned && m.reaps == 0,
        SessionPhase::Closed => m.spawned ==> m.reaps == 1,
    }
}

/// One step preserves a session's consistency.
pub proof fn lemma_session_step_wf(m: SessionModel, ev: SessionEvent)
    requires
        session_wf(m),
    ensures
        session_wf(session_step(m, ev).0),
{
}

/// Any run of events preserves a session's consistency.
pub proof fn lemma_session_run_wf(m: SessionModel, evs: Seq<SessionEvent>)
    requires
        session_wf(m),
    ensures
        session_wf(session_run(m, evs)),
    decreases evs.len(),
{
    if evs.len() > 0 {
        lemma_session_step_wf(m, evs[0]);
        lemma_session_run_wf(session_step(m, evs[0]).0, evs.drop_first());
    }
}

/// Law (reaped exactly once): on every path a fresh session can take — any
/// sequence of events whatsoever — the child is reaped at most once; and if
/// the session has closed after spawning a child, the child was reaped exactly
/// once.  No zombie is left behind and nothing waits twice.
pub proof fn lemma_child_reaped_exactly_once(evs: Seq<SessionEvent>)
    ensures
        session_run(session_init(), evs).reaps <= 1,
        session_run(session_init(), evs).phase == SessionPhase::Closed
            && session_run(session_init(), evs).spawned
            ==> session_run(session_init(), evs).reaps == 1,
{
    lemma_session_run_wf(session_init(), evs);
}

/// Law (reaping is unconditional): whatever ended the relay — PTY hang-up or
/// stream closure, graceful end or fault — the session's next duty is to wait
/// for the child.
pub proof fn lemma_reap_unconditional(m: SessionModel, end: RelayEnd)
    requires
        m.phase == SessionPhase::Relaying,
    ensures
        session_step(m, SessionEvent::RelayEnded(end)).1 == SessionAction::ReapChild,
{
}

/// Law (end of data is not an error): a relay that ended gracefully — both
/// sources returned zero bytes — finishes its session successfully; it is
/// never reported as an I/O error.
pub proof fn lemma_graceful_end_is_not_an_error(m: SessionModel)
    requires
        m.phase == SessionPhase::Reaping(RelayEnd::Eof),
    ensures
        session_step(m, SessionEvent::ChildReaped).1 == SessionAction::Finish(Ok(())),
{
}

/// One PTY session.  The ghost `reaps` counter records how many times the
/// driver was told to wait for the child.
pub struct Session {
    /// Lifecycle phase.
    pub phase: SessionPhase,
    /// Whether a shell was ever spawned.
    pub spawned: bool,
    /// How many times the child has been reaped.
    pub reaps: Ghost<nat>,
}

impl Session {
    /// The model this session stands for.
    pub open spec fn model(&self) -> SessionModel {
        SessionModel { phase: self.phase, spawned: self.spawned, reaps: self.reaps@ }
    }

    /// A session for a freshly accepted stream.
    pub fn new() -> (s: Session)
        ensures
            s.model() == session_init(),
    {
        Session { phase: SessionPhase::Accepted, spawned: false, reaps: Ghost(0) }
    }

    /// Feeds one observed event to the session and returns the driver's next
    /// duty, exactly as the transition table says.
    pub fn step(&mut self, ev: SessionEvent) -> (a: SessionAction)
        ensures
            (final(self).model(), a) == session_step(old(self).model(), ev),
    {
        match (self.phase, ev) {
            (SessionPhase::Accepted, SessionEvent::PtyAllocated) => {
                self.phase = SessionPhase::PtyReady;
                SessionAction::SpawnShell
            },
            (SessionPhase::Accepted, SessionEvent::PtyDenied) => {
                self.phase = SessionPhase::Closed;
                SessionAction::Finish(Err(TunnelError::PtyAllocation))
            },
            (SessionPhase::PtyReady, SessionEvent::ShellSpawned) => {
                self.phase = SessionPhase::Relaying;
                self.spawned = true;
                SessionAction::StartRelay
            },
            (SessionPhase::PtyReady, SessionEvent::SpawnDenied) => {
                self.phase = SessionPhase::Closed;
                SessionAction::Finish(Err(TunnelError::Spawn))
            },
            (SessionPhase::Relaying, SessionEvent::RelayEnded(end)) => {
                self.phase = SessionPhase::Reaping(end);
                SessionAction::ReapChild
            },
            (SessionPhase::Reaping(end), SessionEvent::ChildReaped) => {
                self.phase = SessionPhase::Closed;
                self.reaps = Ghost(self.reaps@ + 1);
                if end == RelayEnd::Eof {
                    SessionAction::Finish(Ok(()))
                } else {
                    SessionAction::Finish(Err(TunnelError::Io))
                }
            },
            _ => SessionAction::Stay,
        }
    }
}

} // verus!
