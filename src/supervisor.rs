use vstd::prelude::*;
use crate::pattern::{pattern_for, OsFamily};
use crate::terminator::ToolKillService;

verus! {

/// The delay between two run cycles, in seconds.
pub const RETRY_DELAY_SECONDS: u64 = 5;

/// How one run cycle of a tool agent ended.
#[derive(Clone, Copy, Debug, PartialEq, Eq, Structural)]
pub enum RunOutcome {
    /// The agent exited successfully, which it is not expected to do.
    Completed(i32),
    /// The agent exited unsuccessfully; `None` when it was ended by a signal.
    CrashedOrFailed(Option<i32>),
    /// The agent could not be started.
    SpawnError,
    /// Waiting for the agent to exit failed.
    WaitError,
}

/// The outcome of a run whose agent exited with `code`.
pub open spec fn classify_spec(code: Option<i32>) -> RunOutcome {
    match code {
        Some(c) => if c == 0 {
            RunOutcome::Completed(0)
        } else {
            RunOutcome::CrashedOrFailed(Some(c))
        },
        None => RunOutcome::CrashedOrFailed(None),
    }
}

/// Classifies the exit of an agent: exit code zero is a completion, anything
/// else (another code, or none) a failure.
pub fn classify_exit(code: Option<i32>) -> (r: RunOutcome)
    ensures
        r == classify_spec(code),
{
    match code {
        Some(c) => if c == 0 {
            RunOutcome::Completed(0)
        } else {
            RunOutcome::CrashedOrFailed(Some(c))
        },
        None => RunOutcome::CrashedOrFailed(None),
    }
}

/// Where a supervision loop stands.
pub enum Phase {
    /// Stale instances of the agent are to be terminated.
    Cleaning,
    /// The agent's arguments are to be resolved.
    ResolvingArgs,
    /// The agent is to be started with these arguments.
    Spawning(Vec<String>),
    /// The agent runs; its exit is awaited.
    Running,
    /// The loop waits before the next cycle.
    Backoff,
    /// The loop was cancelled.
    Stopped,
}

/// What the driver of a supervision loop reports back.
pub enum Event {
    /// The stale instances were terminated.
    Cleaned,
    /// The arguments were resolved to these.
    ArgsResolved(Vec<String>),
    /// The arguments could not be resolved.
    ArgsFailed,
    /// The agent was started.
    Spawned,
    /// The agent could not be started.
    SpawnFailed,
    /// The agent exited, with its exit code if it has one.
    Exited(Option<i32>),
    /// Waiting for the agent failed.
    WaitFailed,
    /// The delay between cycles has passed.
    Slept,
}

/// What the driver of a supervision loop is to do next.
pub enum Action {
    /// Terminate every process that this command pattern recognises.
    Clean(String),
    /// Resolve the agent's arguments.
    ResolveArgs,
    /// Start the agent with the arguments held by the phase.
    Spawn,
    /// Wait for the agent to exit.
    Wait,
    /// Sleep this many seconds.
    Sleep(u64),
    /// Leave the loop.
    Halt,
}

/// A phase at which a pending cancellation takes effect.
pub open spec fn is_boundary(p: Phase) -> bool {
    p is Cleaning || p is ResolvingArgs || p is Backoff
}

/// A phase, with a pending cancellation applied.
pub open spec fn settle(p: Phase, cancel: bool) -> Phase {
    if cancel && is_boundary(p) {
        Phase::Stopped
    } else {
        p
    }
}

/// The phase that `e` leads to from `p`, or `None` when `e` does not belong to `p`.
pub open spec fn transition(p: Phase, e: Event) -> Option<Phase> {
    match e {
        Event::Cleaned => if p is Cleaning {
            Some(Phase::ResolvingArgs)
        } else {
            None
        },
        Event::ArgsResolved(args) => if p is ResolvingArgs {
            Some(Phase::Spawning(args))
        } else {
            None
        },
        Event::ArgsFailed => if p is ResolvingArgs {
            Some(Phase::Backoff)
        } else {
            None
        },
        Event::Spawned => if p is Spawning {
            Some(Phase::Running)
        } else {
            None
        },
        Event::SpawnFailed => if p is Spawning {
            Some(Phase::Backoff)
        } else {
            None
        },
        Event::Exited(_) => if p is Running {
            Some(Phase::Backoff)
        } else {
            None
        },
        Event::WaitFailed => if p is Running {
            Some(Phase::Backoff)
        } else {
            None
        },
        Event::Slept => if p is Backoff {
            Some(Phase::Cleaning)
        } else {
            None
        },
    }
}

/// The run outcome that `e` establishes at `p`, if any.
pub open spec fn outcome_of(p: Phase, e: Event) -> Option<RunOutcome> {
    match e {
        Event::SpawnFailed => if p is Spawning {
            Some(RunOutcome::SpawnError)
        } else {
            None
        },
        Event::Exited(code) => if p is Running {
            Some(classify_spec(code))
        } else {
            None
        },
        Event::WaitFailed => if p is Running {
            Some(RunOutcome::WaitError)
        } else {
            None
        },
        _ => None,
    }
}

/// The phase after `e`, with a pending cancellation applied.
pub open spec fn next_phase(p: Phase, e: Event, cancel: bool) -> Phase {
    match transition(p, e) {
        Some(q) => settle(q, cancel),
        None => p,
    }
}

/// The supervision loop of one tool agent: every cycle terminates stale
/// instances, resolves the arguments, starts the agent, waits for its exit and
/// waits a fixed delay, whatever the cycle's outcome. It never ends on its own;
/// a cancellation takes effect at the next cycle boundary.
pub struct Supervisor {
    pub tool_id: String,
    pub family: OsFamily,
    pub phase: Phase,
    pub retry_delay_secs: u64,
    pub cancel_requested: bool,
    pub last_outcome: Option<RunOutcome>,
}

impl Supervisor {
    /// A loop for `tool_id` that starts by cleaning, with the standard delay.
    pub fn new(tool_id: &str, family: OsFamily) -> (r: Supervisor)
        ensures
            r.tool_id@ == tool_id@,
            r.family == family,
            r.phase is Cleaning,
            r.retry_delay_secs == RETRY_DELAY_SECONDS,
            !r.cancel_requested,
            r.last_outcome is None,
    {
        Supervisor {
            tool_id: String::from_str(tool_id),
            family,
            phase: Phase::Cleaning,
            retry_delay_secs: RETRY_DELAY_SECONDS,
            cancel_requested: false,
            last_outcome: None,
        }
    }

    /// The same loop with another delay between cycles.
    pub fn with_retry_delay(self, secs: u64) -> (r: Supervisor)
        ensures
            r.retry_delay_secs == secs,
            r.tool_id == self.tool_id,
            r.family == self.family,
            r.phase == self.phase,
            r.cancel_requested == self.cancel_requested,
            r.last_outcome == self.last_outcome,
    {
        Supervisor { retry_delay_secs: secs, ..self }
    }

    /// The action that the current phase asks for.
    pub fn next_action(&self) -> (r: Action)
        ensures
            match self.phase {
                Phase::Cleaning => r matches Action::Clean(p) && p@ == pattern_for(
                    self.tool_id@,
                    self.family,
                ),
                Phase::ResolvingArgs => r is ResolveArgs,
                Phase::Spawning(_) => r is Spawn,
                Phase::Running => r is Wait,
                Phase::Backoff => r == Action::Sleep(self.retry_delay_secs),
                Phase::Stopped => r is Halt,
            },
    {
        match self.phase {
            Phase::Cleaning => Action::Clean(ToolKillService::build_cmd_pattern(self.tool_id.as_str(), self.family)),
            Phase::ResolvingArgs => Action::ResolveArgs,
            Phase::Spawning(_) => Action::Spawn,
            Phase::Running => Action::Wait,
            Phase::Backoff => Action::Sleep(self.retry_delay_secs),
            Phase::Stopped => Action::Halt,
        }
    }

    /// The arguments to start the agent with, while the phase holds them.
    pub fn spawn_args(&self) -> (r: Option<&Vec<String>>)
        ensures
            match self.phase {
                Phase::Spawning(args) => r == Some(&args),
                _ => r is None,
            },
    {
        match &self.phase {
            Phase::Spawning(args) => Some(args),
            _ => None,
        }
    }

    /// Advances the loop by what the driver reports. An event that does not
    /// belong to the current phase leaves the loop as it is.
    pub fn on_event(&mut self, event: Event)
        ensures
            final(self).phase == next_phase(old(self).phase, event, old(self).cancel_requested),
            final(self).last_outcome == match outcome_of(old(self).phase, event) {
                Some(o) => Some(o),
                None => old(self).last_outcome,
            },
            final(self).tool_id == old(self).tool_id,
            final(self).family == old(self).family,
            final(self).retry_delay_secs == old(self).retry_delay_secs,
            final(self).cancel_requested == old(self).cancel_requested,
    {
        let ghost e = event;
        let (next, outcome): (Option<Phase>, Option<RunOutcome>) = match event {
            Event::Cleaned => (
                if matches!(self.phase, Phase::Cleaning) {
                    Some(Phase::ResolvingArgs)
                } else {
                    None
                },
                None,
            ),
            Event::ArgsResolved(args) => (
                if matches!(self.phase, Phase::ResolvingArgs) {
                    Some(Phase::Spawning(args))
                } else {
                    None
                },
                None,
            ),
            Event::ArgsFailed => (
                if matches!(self.phase, Phase::ResolvingArgs) {
                    Some(Phase::Backoff)
                } else {
                    None
                },
                None,
            ),
            Event::Spawned => (
                if matches!(self.phase, Phase::Spawning(_)) {
                    Some(Phase::Running)
                } else {
                    None
                },
                None,
            ),
            Event::SpawnFailed => if matches!(self.phase, Phase::Spawning(_)) {
                (Some(Phase::Backoff), Some(RunOutcome::SpawnError))
            } else {
                (None, None)
            },
            Event::Exited(code) => if matches!(self.phase, Phase::Running) {
                (Some(Phase::Backoff), Some(classify_exit(code)))
            } else {
                (None, None)
            },
            Event::WaitFailed => if matches!(self.phase, Phase::Running) {
                (Some(Phase::Backoff), Some(RunOutcome::WaitError))
            } else {
                (None, None)
            },
            Event::Slept => (
                if matches!(self.phase, Phase::Backoff) {
                    Some(Phase::Cleaning)
                } else {
                    None
                },
                None,
            ),
        };
        assert(next == transition(self.phase, e));
        assert(outcome == outcome_of(self.phase, e));
        if let Some(p) = next {
            self.phase = Self::settled(p, self.cancel_requested);
        }
        if let Some(o) = outcome {
            self.last_outcome = Some(o);
        }
    }

    fn settled(p: Phase, cancel: bool) -> (r: Phase)
        ensures
            r == settle(p, cancel),
    {
        if cancel && matches!(p, Phase::Cleaning | Phase::ResolvingArgs | Phase::Backoff) {
            Phase::Stopped
        } else {
            p
        }
    }

    /// Requests that the loop stop; it stops at once when it stands at a cycle
    /// boundary, else when it next reaches one.
    pub fn cancel(&mut self)
        ensures
            final(self).cancel_requested,
            final(self).phase == settle(old(self).phase, true),
            final(self).tool_id == old(self).tool_id,
            final(self).family == old(self).family,
            final(self).retry_delay_secs == old(self).retry_delay_secs,
            final(self).last_outcome == old(self).last_outcome,
    {
        self.cancel_requested = true;
        if matches!(self.phase, Phase::Cleaning | Phase::ResolvingArgs | Phase::Backoff) {
            self.phase = Phase::Stopped;
        }
    }

    /// Whether the loop has stopped.
    pub fn is_stopped(&self) -> (r: bool)
        ensures
            r == (self.phase is Stopped),
    {
        matches!(self.phase, Phase::Stopped)
    }
}

/// Without a cancellation the loop never stops: no event leads out of a
/// running phase into `Stopped`.
pub proof fn lemma_runs_forever(p: Phase, e: Event)
    requires
        !(p is Stopped),
    ensures
        !(next_phase(p, e, false) is Stopped),
{
}

/// Every outcome of a started agent, a successful exit included, leads to the
/// delay before the next cycle, and the delay leads back to cleaning.
pub proof fn lemma_every_exit_retries(code: Option<i32>)
    ensures
        next_phase(Phase::Running, Event::Exited(code), false) is Backoff,
        next_phase(Phase::Running, Event::WaitFailed, false) is Backoff,
        next_phase(Phase::Backoff, Event::Slept, false) is Cleaning,
        code == Some(0i32) ==> outcome_of(Phase::Running, Event::Exited(code)) == Some(
            RunOutcome::Completed(0),
        ),
{
}

/// A failed resolution skips the start: it leads to the delay, never to a spawn.
pub proof fn lemma_resolution_failure_skips_spawn(cancel: bool)
    ensures
        !(next_phase(Phase::ResolvingArgs, Event::ArgsFailed, cancel) is Spawning),
        !cancel ==> next_phase(Phase::ResolvingArgs, Event::ArgsFailed, cancel) is Backoff,
{
}

} // verus!
