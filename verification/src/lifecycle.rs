//! The connect session lifecycle: `Created`, `Running`, `Terminated`.
//!
//! `Created` ends the instant the remote-control engine is constructed from
//! the configuration, network session, renderer and mixer. `Running` is the
//! single long-lived asynchronous unit of work driving the engine's run loop.
//! `Terminated` is that loop's natural completion; there is no cancellation
//! path. The caller that owns the session advances the phase with these
//! events and awaits the run loop itself.

use vstd::prelude::*;

verus! {

/// The phase of a connect session.
#[derive(Clone, Copy, PartialEq, Eq, Structural, Debug)]
pub enum SessionPhase {
    Created,
    Running,
    Terminated,
}

/// An observable lifecycle event of a connect session.
#[derive(Clone, Copy, PartialEq, Eq, Structural, Debug)]
pub enum SessionEvent {
    /// The remote-control engine's run loop was spawned.
    RunLoopSpawned,
    /// The run loop completed naturally.
    RunLoopEnded,
}

/// The phase a session is in after an event: the two legal transitions move
/// forward, any other event leaves the phase unchanged.
pub open spec fn next_phase(p: SessionPhase, e: SessionEvent) -> SessionPhase {
    match (p, e) {
        (SessionPhase::Created, SessionEvent::RunLoopSpawned) => SessionPhase::Running,
        (SessionPhase::Running, SessionEvent::RunLoopEnded) => SessionPhase::Terminated,
        (q, _) => q,
    }
}

/// How far along its life a session is.
pub open spec fn phase_rank(p: SessionPhase) -> int {
    match p {
        SessionPhase::Created => 0,
        SessionPhase::Running => 1,
        SessionPhase::Terminated => 2,
    }
}

/// Advances a session phase by one observed event.
pub fn advance(p: SessionPhase, e: SessionEvent) -> (q: SessionPhase)
    ensures
        q == next_phase(p, e),
{
    match (p, e) {
        (SessionPhase::Created, SessionEvent::RunLoopSpawned) => SessionPhase::Running,
        (SessionPhase::Running, SessionEvent::RunLoopEnded) => SessionPhase::Terminated,
        (q, _) => q,
    }
}

/// The lifecycle only moves forward: no event moves a session to an earlier
/// phase.
pub proof fn lemma_phase_monotonic(p: SessionPhase, e: SessionEvent)
    ensures
        phase_rank(next_phase(p, e)) >= phase_rank(p),
{
}

/// No sequence of events returns a session to `Created`: once the run loop
/// is observed `Running`, the session is never observed freshly created again.
pub proof fn lemma_no_return_to_created(p: SessionPhase, e: SessionEvent)
    ensures
        next_phase(p, e) == SessionPhase::Created ==> p == SessionPhase::Created,
{
}

} // verus!
