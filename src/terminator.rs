use vstd::prelude::*;
use crate::pattern::{command_matches, command_matches_spec, lowercase, pattern_for, raw_pattern, OsFamily};

verus! {

/// One live process as seen by a scan of the process table.
pub struct ProcessSnapshot {
    pub pid: u32,
    pub command_line: Vec<String>,
}

/// The pids of the snapshots whose command lines `pattern` recognises, in scan order.
pub open spec fn matching_pids(procs: Seq<ProcessSnapshot>, pattern: Seq<char>) -> Seq<u32>
    decreases procs.len(),
{
    if procs.len() == 0 {
        Seq::empty()
    } else {
        let rest = matching_pids(procs.drop_last(), pattern);
        if command_matches_spec(procs.last().command_line@, pattern) {
            rest.push(procs.last().pid)
        } else {
            rest
        }
    }
}

/// The pids of the processes to terminate for `pattern`.
pub fn select_targets(procs: &Vec<ProcessSnapshot>, pattern: &str) -> (r: Vec<u32>)
    ensures
        r@ == matching_pids(procs@, pattern@),
{
    let mut r: Vec<u32> = Vec::new();
    let mut i: usize = 0;
    while i < procs.len()
        invariant
            i <= procs.len(),
            r@ == matching_pids(procs@.subrange(0, i as int), pattern@),
        decreases procs.len() - i,
    {
        assert(procs@.subrange(0, i + 1).drop_last() =~= procs@.subrange(0, i as int));
        if command_matches(&procs[i].command_line, pattern) {
            r.push(procs[i].pid);
        }
        i = i + 1;
    }
    assert(procs@.subrange(0, procs.len() as int) =~= procs@);
    r
}

/// The two tiers of termination.
#[derive(Clone, Copy, Debug, PartialEq, Eq, Structural)]
pub enum KillSignal {
    /// A cooperative stop request.
    Graceful,
    /// An unconditional kill.
    Forced,
}

/// A signal to send to one process.
#[derive(Clone, Copy, Debug, PartialEq, Eq, Structural)]
pub struct KillRequest {
    pub pid: u32,
    pub signal: KillSignal,
}

/// What sending a signal reported.
#[derive(Clone, Copy, Debug, PartialEq, Eq, Structural)]
pub enum KillReply {
    /// The signal was sent; `true` when the process was terminated by it.
    Delivered(bool),
    /// The platform does not offer the signal.
    Unsupported,
}

/// How the termination of one matched process ended.
#[derive(Clone, Copy, Debug, PartialEq, Eq, Structural)]
pub enum KillOutcome {
    StoppedGracefully,
    ForceKilled,
    ForceKillFailed,
    SignalUnsupported,
}

impl KillOutcome {
    pub open spec fn stopped_spec(self) -> bool {
        self is StoppedGracefully || self is ForceKilled
    }

    /// Whether the process was terminated.
    pub fn is_stopped(&self) -> (r: bool)
        ensures
            r == self.stopped_spec(),
    {
        match self {
            KillOutcome::StoppedGracefully => true,
            KillOutcome::ForceKilled => true,
            _ => false,
        }
    }
}

/// The number of outcomes that terminated their process.
pub open spec fn count_stopped(outcomes: Seq<KillOutcome>) -> nat
    decreases outcomes.len(),
{
    if outcomes.len() == 0 {
        0
    } else {
        count_stopped(outcomes.drop_last()) + if outcomes.last().stopped_spec() {
            1nat
        } else {
            0nat
        }
    }
}

/// The outcome of the forced tier for its reply.
pub open spec fn forced_outcome(reply: KillReply) -> KillOutcome {
    match reply {
        KillReply::Delivered(true) => KillOutcome::ForceKilled,
        KillReply::Delivered(false) => KillOutcome::ForceKillFailed,
        KillReply::Unsupported => KillOutcome::SignalUnsupported,
    }
}

/// A single best-effort pass over the matched processes: each one gets the
/// graceful signal, and the forced one only when the graceful one failed.
/// The caller sends what `next_request` asks for and hands the reply to `record`.
pub struct Terminator {
    targets: Vec<u32>,
    outcomes: Vec<KillOutcome>,
    escalated: bool,
}

/// The state of a terminator: the matched pids, the outcome of each one
/// handled so far, and whether the current one awaits its forced signal.
pub ghost struct TerminatorView {
    pub targets: Seq<u32>,
    pub outcomes: Seq<KillOutcome>,
    pub escalated: bool,
}

impl TerminatorView {
    pub open spec fn wf(self) -> bool {
        &&& self.outcomes.len() <= self.targets.len()
        &&& self.escalated ==> self.outcomes.len() < self.targets.len()
    }

    pub open spec fn finished(self) -> bool {
        self.outcomes.len() == self.targets.len()
    }

    /// The signal owed next, if any.
    pub open spec fn next(self) -> Option<KillRequest> {
        if self.finished() {
            None
        } else {
            Some(
                KillRequest {
                    pid: self.targets[self.outcomes.len() as int],
                    signal: if self.escalated {
                        KillSignal::Forced
                    } else {
                        KillSignal::Graceful
                    },
                },
            )
        }
    }

    /// The state after the reply to the signal owed next.
    pub open spec fn after(self, reply: KillReply) -> TerminatorView {
        if self.escalated {
            TerminatorView {
                outcomes: self.outcomes.push(forced_outcome(reply)),
                escalated: false,
                ..self
            }
        } else if reply == KillReply::Delivered(true) {
            TerminatorView {
                outcomes: self.outcomes.push(KillOutcome::StoppedGracefully),
                ..self
            }
        } else {
            TerminatorView { escalated: true, ..self }
        }
    }
}

impl View for Terminator {
    type V = TerminatorView;

    closed spec fn view(&self) -> TerminatorView {
        TerminatorView { targets: self.targets@, outcomes: self.outcomes@, escalated: self.escalated }
    }
}

impl Terminator {
    /// Starts a pass over the snapshots that `pattern` recognises.
    pub fn new(procs: &Vec<ProcessSnapshot>, pattern: &str) -> (r: Terminator)
        ensures
            r@.wf(),
            r@.targets == matching_pids(procs@, pattern@),
            r@.outcomes.len() == 0,
            !r@.escalated,
    {
        Terminator { targets: select_targets(procs, pattern), outcomes: Vec::new(), escalated: false }
    }

    /// The signal to send next; `None` once every matched process has been handled.
    pub fn next_request(&self) -> (r: Option<KillRequest>)
        requires
            self@.wf(),
        ensures
            r == self@.next(),
    {
        let done = self.outcomes.len();
        if done == self.targets.len() {
            None
        } else {
            let signal = if self.escalated {
                KillSignal::Forced
            } else {
                KillSignal::Graceful
            };
            Some(KillRequest { pid: self.targets[done], signal })
        }
    }

    /// Records what sending the requested signal reported.
    pub fn record(&mut self, reply: KillReply)
        requires
            old(self)@.wf(),
            !old(self)@.finished(),
        ensures
            final(self)@ == old(self)@.after(reply),
            final(self)@.wf(),
    {
        if self.escalated {
            let outcome = match reply {
                KillReply::Delivered(true) => KillOutcome::ForceKilled,
                KillReply::Delivered(false) => KillOutcome::ForceKillFailed,
                KillReply::Unsupported => KillOutcome::SignalUnsupported,
            };
            self.outcomes.push(outcome);
            self.escalated = false;
        } else if reply == KillReply::Delivered(true) {
            self.outcomes.push(KillOutcome::StoppedGracefully);
        } else {
            self.escalated = true;
        }
    }

    /// Whether every matched process has been handled.
    pub fn is_finished(&self) -> (r: bool)
        requires
            self@.wf(),
        ensures
            r == self@.finished(),
    {
        self.outcomes.len() == self.targets.len()
    }

    /// The pids matched by the scan.
    pub fn targets(&self) -> (r: &Vec<u32>)
        ensures
            r@ == self@.targets,
    {
        &self.targets
    }

    /// The outcome of each process handled so far, in the order of `targets`.
    pub fn outcomes(&self) -> (r: &Vec<KillOutcome>)
        ensures
            r@ == self@.outcomes,
    {
        &self.outcomes
    }

    /// How many processes were terminated.
    pub fn stopped_count(&self) -> (r: usize)
        ensures
            r == count_stopped(self@.outcomes),
    {
        let mut n: usize = 0;
        let mut i: usize = 0;
        while i < self.outcomes.len()
            invariant
                i <= self.outcomes.len(),
                n == count_stopped(self@.outcomes.subrange(0, i as int)),
                n <= i,
            decreases self.outcomes.len() - i,
        {
            assert(self@.outcomes.subrange(0, i + 1).drop_last() =~= self@.outcomes.subrange(
                0,
                i as int,
            ));
            if self.outcomes[i].is_stopped() {
                n = n + 1;
            }
            i = i + 1;
        }
        assert(self@.outcomes.subrange(0, self.outcomes.len() as int) =~= self@.outcomes);
        n
    }
}


/// Stops the tool agents that a scan of the process table finds.
#[derive(Clone, Copy, Debug)]
pub struct ToolKillService;

impl ToolKillService {
    /// The service; it holds no state.
    pub fn new() -> (r: ToolKillService) {
        ToolKillService
    }

    /// Builds the command pattern `<sep>tool_id<sep>agent`, lowercased.
    pub fn build_cmd_pattern(tool_id: &str, family: OsFamily) -> (r: String)
        ensures
            r@ == pattern_for(tool_id@, family),
    {
        let sep: &str = match family {
            OsFamily::Unix => "/",
            OsFamily::Windows => "\\",
        };
        proof {
            reveal_strlit("/");
            reveal_strlit("\\");
            reveal_strlit("agent");
        }
        let mut s = String::from_str(sep);
        s.append(tool_id);
        s.append(sep);
        s.append("agent");
        assert(s@ =~= raw_pattern(tool_id@, family));
        lowercase(s.as_str())
    }

    /// Plans the termination of every scanned process that runs the agent of
    /// `tool_id`. A scan that finds none gives a plan that sends nothing.
    pub fn plan_stop(&self, tool_id: &str, family: OsFamily, procs: &Vec<ProcessSnapshot>) -> (r:
        Terminator)
        ensures
            r@.wf(),
            r@.targets == matching_pids(procs@, pattern_for(tool_id@, family)),
            r@.outcomes.len() == 0,
            !r@.escalated,
    {
        let pattern = Self::build_cmd_pattern(tool_id, family);
        Terminator::new(procs, pattern.as_str())
    }
}

/// No process matches: the pass sends no signal at all and stops nothing.
pub proof fn lemma_stop_without_match_sends_nothing(
    procs: Seq<ProcessSnapshot>,
    pattern: Seq<char>,
    t: TerminatorView,
)
    requires
        forall|i: int| 0 <= i < procs.len() ==> !command_matches_spec(#[trigger] procs[i].command_line@, pattern),
        t.targets == matching_pids(procs, pattern),
        t.outcomes.len() == 0,
    ensures
        t.finished(),
        t.next() is None,
        count_stopped(t.outcomes) == 0,
    decreases procs.len(),
{
    lemma_no_match_no_targets(procs, pattern);
}

proof fn lemma_no_match_no_targets(procs: Seq<ProcessSnapshot>, pattern: Seq<char>)
    requires
        forall|i: int| 0 <= i < procs.len() ==> !command_matches_spec(#[trigger] procs[i].command_line@, pattern),
    ensures
        matching_pids(procs, pattern).len() == 0,
    decreases procs.len(),
{
    if procs.len() > 0 {
        let rest = procs.drop_last();
        assert forall|i: int| 0 <= i < rest.len() implies !command_matches_spec(#[trigger] rest[i].command_line@, pattern) by {
            assert(rest[i] == procs[i]);
        }
        lemma_no_match_no_targets(rest, pattern);
        assert(!command_matches_spec(procs[procs.len() - 1].command_line@, pattern));
    }
}

/// Every scanned process that the pattern recognises is a target, whether it
/// is a genuine agent or only mentions the pattern in its command line.
pub proof fn lemma_every_match_targeted(procs: Seq<ProcessSnapshot>, pattern: Seq<char>, i: int)
    requires
        0 <= i < procs.len(),
        command_matches_spec(procs[i].command_line@, pattern),
    ensures
        matching_pids(procs, pattern).contains(procs[i].pid),
    decreases procs.len(),
{
    let rest = procs.drop_last();
    let r = matching_pids(rest, pattern);
    if i == procs.len() - 1 {
        assert(matching_pids(procs, pattern) == r.push(procs[i].pid));
        assert(r.push(procs[i].pid)[r.len() as int] == procs[i].pid);
    } else {
        assert(rest[i] == procs[i]);
        lemma_every_match_targeted(rest, pattern, i);
        let k = choose|k: int| 0 <= k < r.len() && r[k] == procs[i].pid;
        if command_matches_spec(procs.last().command_line@, pattern) {
            assert(r.push(procs.last().pid)[k] == procs[i].pid);
        }
    }
}


/// The replies still owed before a pass ends: two per unhandled process, less
/// one when the current process already awaits its forced signal.
pub open spec fn replies_left(t: TerminatorView) -> int {
    2 * (t.targets.len() - t.outcomes.len()) - if t.escalated {
        1int
    } else {
        0int
    }
}

/// A pass is a single best-effort sweep: every reply brings it one step
/// closer to its end, so a pass over `n` matched processes ends after at most
/// `2 * n` replies, and no process is signalled once it has an outcome.
pub proof fn lemma_pass_ends(t: TerminatorView, reply: KillReply)
    requires
        t.wf(),
        !t.finished(),
    ensures
        t.after(reply).wf(),
        0 <= replies_left(t.after(reply)) < replies_left(t),
        replies_left(t) <= 2 * t.targets.len(),
        t.after(reply).outcomes.len() >= t.outcomes.len(),
        t.outcomes.is_prefix_of(t.after(reply).outcomes),
{
}

} // verus!
