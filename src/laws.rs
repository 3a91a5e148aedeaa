//! Properties of the supervision loop that span several steps.

use vstd::prelude::*;
use crate::lifecycle::{first_time_after, reaction_of, EventKind, Reaction};
use crate::supervisor::{
    action_of, after_close, after_disconnect, emits, phase_after_event, stopped, LoopAction, Phase,
};

verus! {

/// An unrecoverable event stops a running loop: the next action is to
/// disconnect, not to wait again, and the event asks for no reconnect.
pub proof fn fatal_event_stops(kind: EventKind)
    requires
        reaction_of(kind) == Reaction::Fatal,
    ensures
        phase_after_event(Phase::Running, kind) == Phase::Stopping,
        action_of(phase_after_event(Phase::Running, kind)) == LoopAction::Disconnect,
        reaction_of(kind) != Reaction::Reconnect,
{
}

/// Once a loop has left the running phase it never runs again: no event,
/// stop request, disconnect or close brings it back, and it is never told to
/// wait (so no further step, and no further reconnect, takes place).
pub proof fn stopped_stays_stopped(phase: Phase, kind: EventKind)
    requires
        phase != Phase::Running,
    ensures
        phase_after_event(phase, kind) != Phase::Running,
        stopped(phase) != Phase::Running,
        after_disconnect(phase) != Phase::Running,
        after_close(phase) != Phase::Running,
        action_of(phase) != LoopAction::Poll,
{
}

/// When a running loop is asked to stop, it disconnects next, then closes
/// its output, then is finished; after the close no step shows a line.
pub proof fn shutdown_flushes(phase: Phase)
    requires
        phase == Phase::Running,
    ensures
        action_of(stopped(phase)) == LoopAction::Disconnect,
        action_of(after_disconnect(stopped(phase))) == LoopAction::Close,
        action_of(after_close(after_disconnect(stopped(phase)))) == LoopAction::Finished,
        !emits(after_close(after_disconnect(stopped(phase)))),
{
}

/// How many "Reconnecting" notices a run of events shows, starting from the
/// given "no drop since the last success" flag: a drop shows one exactly when
/// the flag is set.
pub open spec fn reconnecting_notices(kinds: Seq<EventKind>, first_time: bool) -> nat
    decreases kinds.len(),
{
    if kinds.len() == 0 {
        0
    } else {
        let here: nat = if reaction_of(kinds[0]) == Reaction::Reconnect && first_time {
            1
        } else {
            0
        };
        here + reconnecting_notices(kinds.drop_first(), first_time_after(kinds[0], first_time))
    }
}

/// One outage, one notice: a run of events without a successful handshake
/// shows at most one "Reconnecting" notice, and none if a drop was already
/// announced.
pub proof fn one_notice_per_outage(kinds: Seq<EventKind>, first_time: bool)
    requires
        forall|i: int| 0 <= i < kinds.len() ==> kinds[i] != EventKind::HandshakeSucceeded,
    ensures
        reconnecting_notices(kinds, first_time) <= 1,
        !first_time ==> reconnecting_notices(kinds, first_time) == 0,
    decreases kinds.len(),
{
    if kinds.len() > 0 {
        let rest = kinds.drop_first();
        assert forall|i: int| 0 <= i < rest.len() implies rest[i] != EventKind::HandshakeSucceeded by {
            assert(rest[i] == kinds[i + 1]);
        }
        one_notice_per_outage(rest, first_time_after(kinds[0], first_time));
    }
}

} // verus!
