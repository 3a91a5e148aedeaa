//! The supervision loop as a state machine. The caller performs the I/O:
//! it asks `next_action` what to do, waits for a message or a lifecycle event,
//! hands what arrived to `step`, shows the line it returns, and reconnects
//! when told to.

use vstd::prelude::*;
use crate::formatter::{format_ql_json, formatted};
use crate::lifecycle::{
    connecting_notice, connecting_text, first_time_after, handle_event, notice_for, reaction_of,
    reconnect_error_notice, reconnect_error_text, text_of, EventKind, LifecycleEvent, Reaction,
};

verus! {

/// What the client is configured with.
pub struct Config {
    /// The endpoint to connect to.
    pub host: String,
    /// Empty means no credential.
    pub password: String,
    /// Empty means a generated identity.
    pub identity: String,
    pub pretty_print: bool,
}

/// Where the loop stands.
#[derive(Clone, Copy, Debug, PartialEq, Eq, Structural)]
pub enum Phase {
    /// Receiving messages and events.
    Running,
    /// Asked to stop; the connection is still up.
    Stopping,
    /// The connection was let go; output is still open.
    Disconnected,
    /// Output is closed: nothing more is shown.
    Closed,
}

/// What the caller does next.
#[derive(Clone, Copy, Debug, PartialEq, Eq, Structural)]
pub enum LoopAction {
    /// Wait for a message or a lifecycle event and hand it to `step`.
    Poll,
    /// Disconnect (best effort, errors ignored) and report `disconnected`.
    Disconnect,
    /// Close the output and report `closed`.
    Close,
    /// Nothing is left to do.
    Finished,
}

pub open spec fn action_of(phase: Phase) -> LoopAction {
    match phase {
        Phase::Running => LoopAction::Poll,
        Phase::Stopping => LoopAction::Disconnect,
        Phase::Disconnected => LoopAction::Close,
        Phase::Closed => LoopAction::Finished,
    }
}

/// The phase after a request to stop: only a running loop is affected.
pub open spec fn stopped(phase: Phase) -> Phase {
    if phase == Phase::Running {
        Phase::Stopping
    } else {
        phase
    }
}

/// The phase after the connection was let go.
pub open spec fn after_disconnect(phase: Phase) -> Phase {
    if phase == Phase::Stopping {
        Phase::Disconnected
    } else {
        phase
    }
}

/// The phase after output was closed.
pub open spec fn after_close(phase: Phase) -> Phase {
    if phase == Phase::Disconnected {
        Phase::Closed
    } else {
        phase
    }
}

/// The phase after a lifecycle event: an unrecoverable one stops the loop.
pub open spec fn phase_after_event(phase: Phase, kind: EventKind) -> Phase {
    if reaction_of(kind) == Reaction::Fatal {
        stopped(phase)
    } else {
        phase
    }
}

/// Whether a step in this phase may still show a line.
pub open spec fn emits(phase: Phase) -> bool {
    phase != Phase::Closed
}

/// What one step produced.
pub struct StepOutput {
    /// The line to show, if any.
    pub line: Option<String>,
    /// Whether to connect to the endpoint again.
    pub reconnect: bool,
}

/// The state of the supervision loop.
pub struct Supervisor {
    pub host: String,
    pub pretty_print: bool,
    /// No drop seen since the last successful handshake.
    pub first_time: bool,
    pub phase: Phase,
}

impl Supervisor {
    /// A running loop for the configuration, with the drop notice armed.
    pub fn new(config: &Config) -> (r: Supervisor)
        ensures
            r.host@ == config.host@,
            r.pretty_print == config.pretty_print,
            r.first_time,
            r.phase == Phase::Running,
    {
        Supervisor {
            host: config.host.clone(),
            pretty_print: config.pretty_print,
            first_time: true,
            phase: Phase::Running,
        }
    }

    /// The line shown before the first connect.
    pub fn startup_notice(&self) -> (r: String)
        ensures
            r@ == connecting_notice(self.host@),
    {
        connecting_text(self.host.as_str())
    }

    pub fn is_running(&self) -> (r: bool)
        ensures
            r == (self.phase == Phase::Running),
    {
        self.phase == Phase::Running
    }

    pub fn next_action(&self) -> (r: LoopAction)
        ensures
            r == action_of(self.phase),
    {
        match self.phase {
            Phase::Running => LoopAction::Poll,
            Phase::Stopping => LoopAction::Disconnect,
            Phase::Disconnected => LoopAction::Close,
            Phase::Closed => LoopAction::Finished,
        }
    }

    /// Handles what arrived in one wait. A message takes precedence over a
    /// lifecycle event that is ready at the same time; that event is left
    /// unhandled. Once output is closed nothing is shown and nothing changes.
    pub fn step(&mut self, message: Option<&str>, event: Option<&LifecycleEvent>) -> (r:
        StepOutput)
        ensures
            !emits(old(self).phase) ==> r.line is None && !r.reconnect && *final(self)
                == *old(self),
            emits(old(self).phase) ==> match (message, event) {
                (Some(m), _) => {
                    &&& text_of(r.line) == Some(formatted(m@, old(self).pretty_print))
                    &&& !r.reconnect
                    &&& *final(self) == *old(self)
                },
                (None, Some(e)) => {
                    &&& text_of(r.line) == notice_for(
                        e.kind,
                        e.label@,
                        old(self).first_time,
                        old(self).host@,
                    )
                    &&& r.reconnect == (reaction_of(e.kind) == Reaction::Reconnect)
                    &&& final(self).first_time == first_time_after(e.kind, old(self).first_time)
                    &&& final(self).phase == phase_after_event(old(self).phase, e.kind)
                    &&& final(self).host == old(self).host
                    &&& final(self).pretty_print == old(self).pretty_print
                },
                (None, None) => r.line is None && !r.reconnect && *final(self) == *old(self),
            },
    {
        if self.phase == Phase::Closed {
            return StepOutput { line: None, reconnect: false };
        }
        match message {
            Some(m) => StepOutput { line: Some(format_ql_json(m, self.pretty_print)), reconnect: false },
            None => match event {
                Some(e) => {
                    let outcome = handle_event(e, self.first_time, self.host.as_str());
                    self.first_time = outcome.first_time;
                    if outcome.stop {
                        self.request_shutdown();
                    }
                    StepOutput { line: outcome.notice, reconnect: outcome.reconnect }
                },
                None => StepOutput { line: None, reconnect: false },
            },
        }
    }

    /// The line shown when a reconnect attempt failed. The loop keeps
    /// running: the next drop event brings another attempt.
    pub fn reconnect_failed(&self, error: &str) -> (r: String)
        ensures
            r@ == reconnect_error_notice(error@),
    {
        reconnect_error_text(error)
    }

    /// Asks a running loop to stop after the current step.
    pub fn request_shutdown(&mut self)
        ensures
            final(self).phase == stopped(old(self).phase),
            final(self).host == old(self).host,
            final(self).pretty_print == old(self).pretty_print,
            final(self).first_time == old(self).first_time,
    {
        if self.phase == Phase::Running {
            self.phase = Phase::Stopping;
        }
    }

    /// Records that the connection was let go.
    pub fn disconnected(&mut self)
        ensures
            final(self).phase == after_disconnect(old(self).phase),
            final(self).host == old(self).host,
            final(self).pretty_print == old(self).pretty_print,
            final(self).first_time == old(self).first_time,
    {
        if self.phase == Phase::Stopping {
            self.phase = Phase::Disconnected;
        }
    }

    /// Records that output was closed.
    pub fn closed(&mut self)
        ensures
            final(self).phase == after_close(old(self).phase),
            final(self).host == old(self).host,
            final(self).pretty_print == old(self).pretty_print,
            final(self).first_time == old(self).first_time,
    {
        if self.phase == Phase::Disconnected {
            self.phase = Phase::Closed;
        }
    }
}

} // verus!
