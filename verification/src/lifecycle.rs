//! The per-session lifecycle: the race between engine completion and client
//! disconnect, and the cleanup coordinator that releases the session's
//! registry entry exactly once, whichever side of the race fires first.

use vstd::prelude::*;
use crate::registry::Registry;

verus! {

/// The states of one session task.
#[derive(Clone, Copy, PartialEq, Eq, Structural, Debug)]
pub enum SessionState {
    /// Channels and engine constructed, registry entry inserted.
    Starting,
    /// The engine is processing; the only state in which traffic flows.
    Running,
    /// The engine returned, normally or with an error, before any shutdown.
    Completed,
    /// The shutdown signal was observed before the engine returned.
    Cancelled,
    /// The session's resources are being released.
    CleaningUp,
    /// All of the session's resources are released.
    Terminated,
}

/// The events a session task observes.
#[derive(Clone, Copy, PartialEq, Eq, Structural, Debug)]
pub enum SessionEvent {
    /// The task handed its channels to the engine and started it.
    EngineStarted,
    /// The engine returned; carries true when it returned without error.
    EngineReturned(bool),
    /// The shutdown signal fired: the outbound stream was abandoned.
    ShutdownObserved,
    /// Cleanup began releasing the session's resources.
    CleanupStarted,
    /// Cleanup finished.
    CleanupFinished,
}

/// The transition relation of the session lifecycle. The two race events are
/// only decided from `Running`: once one side has won, the late loser's
/// event changes nothing, and both terminal race states lead into cleanup.
pub open spec fn spec_step(s: SessionState, e: SessionEvent) -> SessionState {
    match (s, e) {
        (SessionState::Starting, SessionEvent::EngineStarted) => SessionState::Running,
        (SessionState::Running, SessionEvent::EngineReturned(_)) => SessionState::Completed,
        (SessionState::Running, SessionEvent::ShutdownObserved) => SessionState::Cancelled,
        (SessionState::Completed, SessionEvent::CleanupStarted) => SessionState::CleaningUp,
        (SessionState::Cancelled, SessionEvent::CleanupStarted) => SessionState::CleaningUp,
        (SessionState::CleaningUp, SessionEvent::CleanupFinished) => SessionState::Terminated,
        _ => s,
    }
}

/// Advances a session's state by one observed event.
pub fn step(s: SessionState, e: SessionEvent) -> (t: SessionState)
    ensures
        t == spec_step(s, e),
{
    match (s, e) {
        (SessionState::Starting, SessionEvent::EngineStarted) => SessionState::Running,
        (SessionState::Running, SessionEvent::EngineReturned(_)) => SessionState::Completed,
        (SessionState::Running, SessionEvent::ShutdownObserved) => SessionState::Cancelled,
        (SessionState::Completed, SessionEvent::CleanupStarted) => SessionState::CleaningUp,
        (SessionState::Cancelled, SessionEvent::CleanupStarted) => SessionState::CleaningUp,
        (SessionState::CleaningUp, SessionEvent::CleanupFinished) => SessionState::Terminated,
        (_, _) => s,
    }
}

/// Once the termination race has resolved, the losing side's event leaves
/// the state unchanged: a late engine result after cancellation, or a late
/// shutdown after completion, is ignored rather than propagated.
pub proof fn lemma_race_loser_ignored(s: SessionState, e: SessionEvent)
    requires
        s == SessionState::Completed || s == SessionState::Cancelled,
        e matches SessionEvent::EngineReturned(_) || e == SessionEvent::ShutdownObserved,
    ensures
        spec_step(s, e) == s,
{
}

/// Both outcomes of the termination race drive cleanup: whichever side won,
/// the next step of the lifecycle releases the session's resources.
pub proof fn lemma_race_drives_cleanup(s: SessionState)
    requires
        s == SessionState::Completed || s == SessionState::Cancelled,
    ensures
        spec_step(s, SessionEvent::CleanupStarted) == SessionState::CleaningUp,
{
}

/// The single-fire guard of the cleanup coordinator: however often the two
/// sides of the termination race ask for cleanup, the registry entry is
/// removed exactly once, and firing again is a safe no-op.
pub struct CleanupGuard {
    fired: bool,
}

impl CleanupGuard {
    /// Whether cleanup has already run through this guard.
    pub closed spec fn fired(&self) -> bool {
        self.fired
    }

    /// A guard that has not fired yet.
    pub fn new() -> (r: Self)
        ensures
            !r.fired(),
    {
        CleanupGuard { fired: false }
    }

    /// Releases the session's registry entry exactly once: the first call
    /// removes it, and every later call changes nothing at all.
    pub fn fire<S>(&mut self, reg: &mut Registry<S>, id: u128) -> (first: bool)
        requires
            old(reg).wf(),
        ensures
            final(self).fired(),
            first == !old(self).fired(),
            final(reg).wf(),
            first ==> final(reg)@ == old(reg)@.remove(id),
            !first ==> *final(reg) == *old(reg),
    {
        if self.fired {
            return false;
        }
        self.fired = true;
        reg.remove(id);
        true
    }
}

/// Cleanup is idempotent on the registry: removing a session's entry twice
/// leaves the registry exactly as removing it once does.
pub proof fn lemma_cleanup_idempotent<S>(m: Map<u128, S>, id: u128)
    ensures
        m.remove(id).remove(id) == m.remove(id),
{
    assert(m.remove(id).remove(id) =~= m.remove(id));
}

/// After cleanup, the session is no longer registered, so a later delivery
/// to the same identifier finds no session.
pub proof fn lemma_cleanup_unregisters<S>(m: Map<u128, S>, id: u128)
    ensures
        !m.remove(id).contains_key(id),
{
}

} // verus!
