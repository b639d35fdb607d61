use vstd::prelude::*;
use crate::memory::{Channel, LastLines, LinesView, recall, store};
use crate::stop::StopRules;
use crate::summary::Summary;

verus! {

/// Exit code of a run whose deadline fired while deadlines count as errors;
/// the same code the `timeout` shell command uses.
pub const TIMEOUT_EXIT_CODE: i32 = 124;

/// Everything the engine decides by, fixed for the whole run.
pub struct RunConfig {
    /// How many iterations may run at most.
    pub num: Option<u32>,
    /// The content predicates applied to every line.
    pub rules: StopRules,
    /// Stop when a child exits with this code.
    pub until_code: Option<i32>,
    /// Stop when a child exits successfully.
    pub until_success: bool,
    /// Stop when a child exits unsuccessfully.
    pub until_fail: bool,
    /// Keep only the output of the latest iteration, shown when the run ends.
    pub only_last: bool,
    /// End with `TIMEOUT_EXIT_CODE` rather than 0 when the deadline fires.
    pub error_on_deadline: bool,
    /// Count the outcomes of the iterations.
    pub summary: bool,
}

/// What the item source gave for the iteration about to start.
pub enum NextItem {
    /// No item source is configured.
    NoSource,
    Item(String),
    /// The item source has run dry.
    Exhausted,
}

/// How an iteration starts.
pub enum Start {
    /// Spawn the command with this raw counter and item in its environment.
    Spawn { raw_counter: u64, item: Option<String> },
    /// The run is over, with this exit code.
    Finish(i32),
}

/// What to do once an event of the current iteration has been handled.
#[derive(Debug, Clone, Copy, PartialEq, Eq, Structural)]
pub enum Flow {
    /// Keep waiting for events of this iteration.
    Wait,
    /// The iteration is over: go on with the next one.
    NextIteration,
    /// The run is over, with this exit code.
    Finish(i32),
}

/// A line of output, tagged with its channel.
pub struct OutLine {
    pub channel: Channel,
    pub text: String,
}

/// The handling of one line of output.
pub struct LineAction {
    /// The line to print now; `None` when only the last iteration is shown.
    pub emit: Option<OutLine>,
    /// Whether the line ends the run (with code 0).
    pub stop: bool,
}

/// The handling of the deadline.
#[derive(Debug, Clone, Copy, PartialEq, Eq, Structural)]
pub struct Halt {
    /// Whether a child is still running and must be terminated and reaped first.
    pub kill_child: bool,
    /// The exit code of the run.
    pub code: i32,
}

/// A failure that aborts the run.
#[derive(Debug, Clone, Copy, PartialEq, Eq, Structural)]
pub enum EngineError {
    /// A child ended without an exit code (it was killed by a signal).
    MissingExitCode,
}

/// Whether an iteration budget lets one more child be spawned.
pub open spec fn budget_allows(budget: Option<u32>) -> bool {
    budget matches Some(n) ==> n > 0
}

/// The budget once one more child has been spawned.
pub open spec fn spend(budget: Option<u32>) -> Option<u32> {
    match budget {
        Some(n) => if n > 0 { Some((n - 1) as u32) } else { Some(0) },
        None => None,
    }
}

/// The budget after `k` spawns.
pub open spec fn spend_times(budget: Option<u32>, k: nat) -> Option<u32>
    decreases k,
{
    if k == 0 {
        budget
    } else {
        spend(spend_times(budget, (k - 1) as nat))
    }
}

/// The flow after a child exited with `code`, given whether its output is drained.
pub open spec fn exit_flow(config: RunConfig, success: bool, code: i32, output_closed: bool) -> Flow {
    if config.until_fail && !success {
        Flow::Finish(code)
    } else if config.until_success && success {
        Flow::Finish(code)
    } else if config.until_code == Some(code) {
        Flow::Finish(code)
    } else if output_closed {
        Flow::NextIteration
    } else {
        Flow::Wait
    }
}

pub open spec fn line_view(l: OutLine) -> (Channel, Seq<char>) {
    (l.channel, l.text@)
}

pub open spec fn lines_view(ls: Seq<OutLine>) -> Seq<(Channel, Seq<char>)> {
    ls.map_values(|l: OutLine| line_view(l))
}

/// The run's state across and within iterations.
pub struct Engine {
    pub config: RunConfig,
    /// Iterations that may still be spawned; `None` when unlimited.
    pub remaining: Option<u32>,
    /// Number of finished iterations.
    pub iteration: u64,
    /// Last line of each channel, kept only when a comparison predicate is on.
    pub memory: LastLines,
    /// Output of the latest iteration, kept in only-last mode.
    pub kept: Vec<OutLine>,
    pub summary: Option<Summary>,
    /// Whether the current child has not been seen to exit.
    pub running: bool,
    /// Whether both output channels of the current child are closed.
    pub output_closed: bool,
}

impl Engine {
    /// A summary is kept exactly when asked for, and output only in only-last mode.
    pub open spec fn wf(&self) -> bool {
        &&& (self.summary is Some <==> self.config.summary)
        &&& (!self.config.only_last ==> self.kept@.len() == 0)
    }

    pub fn new(config: RunConfig) -> (r: Engine)
        ensures
            r.wf(),
            r.config == config,
            r.remaining == config.num,
            r.iteration == 0,
            r.memory@ == (None::<Seq<char>>, None::<Seq<char>>),
            r.kept@.len() == 0,
            r.summary is Some <==> config.summary,
            r.summary matches Some(s) ==> s.successes == 0 && s.failures@.len() == 0,
            !r.running,
            r.output_closed,
    {
        let remaining = config.num;
        let summary = if config.summary { Some(Summary::new()) } else { None };
        Engine {
            config,
            remaining,
            iteration: 0,
            memory: LastLines::new(),
            kept: Vec::new(),
            summary,
            running: false,
            output_closed: true,
        }
    }

    /// Starts an iteration: the run ends when the item source has run dry or
    /// the budget is spent; otherwise one child is spawned.
    pub fn start(&mut self, item: NextItem) -> (r: Start)
        requires
            old(self).wf(),
        ensures
            final(self).wf(),
            final(self).config == old(self).config,
            final(self).iteration == old(self).iteration,
            final(self).memory@ == old(self).memory@,
            final(self).summary == old(self).summary,
            (item is Exhausted || !budget_allows(old(self).remaining)) <==> r is Finish,
            r matches Start::Finish(c) ==> c == 0 && final(self).remaining == old(self).remaining
                && final(self).kept@ == old(self).kept@ && final(self).running == old(self).running
                && final(self).output_closed == old(self).output_closed,
            r matches Start::Spawn { raw_counter, item: it } ==> {
                &&& raw_counter == old(self).iteration
                &&& opt_text(it) == item_text(item)
                &&& final(self).remaining == spend(old(self).remaining)
                &&& final(self).kept@.len() == 0
                &&& final(self).running
                &&& !final(self).output_closed
            },
    {
        let it = match item {
            NextItem::Exhausted => {
                return Start::Finish(0);
            },
            NextItem::NoSource => None,
            NextItem::Item(s) => Some(s),
        };
        match self.remaining {
            Some(n) => {
                if n == 0 {
                    return Start::Finish(0);
                }
                self.remaining = Some(n - 1);
            },
            None => {},
        }
        self.kept.clear();
        self.running = true;
        self.output_closed = false;
        Start::Spawn { raw_counter: self.iteration, item: it }
    }

    /// Handles one line of the current child's output.
    pub fn on_line(&mut self, channel: Channel, text: String) -> (r: LineAction)
        requires
            old(self).wf(),
        ensures
            final(self).wf(),
            final(self).config == old(self).config,
            final(self).remaining == old(self).remaining,
            final(self).iteration == old(self).iteration,
            final(self).summary == old(self).summary,
            final(self).running == old(self).running,
            final(self).output_closed == old(self).output_closed,
            final(self).memory@ == if old(self).config.rules.spec_needs_last() {
                store(old(self).memory@, channel, text@)
            } else {
                old(self).memory@
            },
            r.stop == old(self).config.rules.stops(
                text@,
                if old(self).config.rules.spec_needs_last() {
                    recall(old(self).memory@, channel)
                } else {
                    None
                },
            ),
            old(self).config.only_last ==> r.emit is None && lines_view(final(self).kept@) == lines_view(
                old(self).kept@,
            ).push((channel, text@)),
            !old(self).config.only_last ==> final(self).kept@ == old(self).kept@,
            !old(self).config.only_last ==> (r.emit matches Some(l) && l.channel == channel && l.text@ == text@),
    {
        let stop = if self.config.rules.needs_last() {
            let prev = self.memory.remember(channel, text.as_str());
            self.config.rules.check_line(text.as_str(), prev.as_ref())
        } else {
            self.config.rules.check_line(text.as_str(), None)
        };
        let line = OutLine { channel, text };
        if self.config.only_last {
            self.kept.push(line);
            proof {
                assert(lines_view(self.kept@) =~= lines_view(old(self).kept@).push(line_view(line)));
            }
            LineAction { emit: None, stop }
        } else {
            LineAction { emit: Some(line), stop }
        }
    }

    /// Handles the exit of the current child.
    pub fn on_exit(&mut self, success: bool, code: Option<i32>) -> (r: Result<Flow, EngineError>)
        requires
            old(self).wf(),
        ensures
            final(self).wf(),
            final(self).config == old(self).config,
            final(self).remaining == old(self).remaining,
            final(self).iteration == old(self).iteration,
            final(self).memory@ == old(self).memory@,
            final(self).kept@ == old(self).kept@,
            final(self).output_closed == old(self).output_closed,
            code is None <==> r == Err::<Flow, EngineError>(EngineError::MissingExitCode),
            code is None ==> final(self).summary == old(self).summary,
            code matches Some(c) ==> {
                &&& r == Ok::<Flow, EngineError>(exit_flow(old(self).config, success, c, old(self).output_closed))
                &&& !final(self).running
                &&& (old(self).summary is None ==> final(self).summary is None)
                &&& (old(self).summary matches Some(s) ==> (final(self).summary matches Some(t) && recorded(s, t, success, c)))
            },
    {
        let c = match code {
            Some(c) => c,
            None => {
                return Err(EngineError::MissingExitCode);
            },
        };
        self.running = false;
        match self.summary.take() {
            Some(mut s) => {
                s.record(success, c);
                self.summary = Some(s);
            },
            None => {},
        }
        if self.config.until_fail && !success {
            return Ok(Flow::Finish(c));
        }
        if self.config.until_success && success {
            return Ok(Flow::Finish(c));
        }
        if let Some(want) = self.config.until_code {
            if want == c {
                return Ok(Flow::Finish(c));
            }
        }
        if self.output_closed {
            Ok(Flow::NextIteration)
        } else {
            Ok(Flow::Wait)
        }
    }

    /// Handles the closing of both output channels of the current child.
    pub fn on_output_closed(&mut self) -> (r: Flow)
        requires
            old(self).wf(),
        ensures
            final(self).wf(),
            final(self).config == old(self).config,
            final(self).remaining == old(self).remaining,
            final(self).iteration == old(self).iteration,
            final(self).memory@ == old(self).memory@,
            final(self).kept@ == old(self).kept@,
            final(self).summary == old(self).summary,
            final(self).running == old(self).running,
            final(self).output_closed,
            r == if old(self).running { Flow::Wait } else { Flow::NextIteration },
    {
        self.output_closed = true;
        if self.running {
            Flow::Wait
        } else {
            Flow::NextIteration
        }
    }

    /// Handles the firing of the deadline, which ends the whole run.
    pub fn on_deadline(&self) -> (r: Halt)
        ensures
            r.kill_child == self.running,
            r.code == if self.config.error_on_deadline { TIMEOUT_EXIT_CODE } else { 0 },
    {
        let code = if self.config.error_on_deadline { TIMEOUT_EXIT_CODE } else { 0 };
        Halt { kill_child: self.running, code }
    }

    /// Closes the current iteration: the counter moves on, saturating at `u64::MAX`.
    pub fn next_iteration(&mut self)
        requires
            old(self).wf(),
        ensures
            final(self).wf(),
            final(self).config == old(self).config,
            final(self).remaining == old(self).remaining,
            final(self).memory@ == old(self).memory@,
            final(self).kept@ == old(self).kept@,
            final(self).summary == old(self).summary,
            final(self).running == old(self).running,
            final(self).output_closed == old(self).output_closed,
            final(self).iteration == if old(self).iteration == u64::MAX {
                u64::MAX as int
            } else {
                old(self).iteration + 1
            },
    {
        self.iteration = self.iteration.saturating_add(1);
    }

    /// The output kept in only-last mode, handed over when the run ends.
    pub fn take_kept(&mut self) -> (r: Vec<OutLine>)
        requires
            old(self).wf(),
        ensures
            final(self).wf(),
            r@ == old(self).kept@,
            final(self).kept@.len() == 0,
            final(self).config == old(self).config,
            final(self).summary == old(self).summary,
    {
        let mut out = Vec::new();
        std::mem::swap(&mut out, &mut self.kept);
        out
    }
}

/// A budget of `n` lets exactly `n` children be spawned: each of the first `n`
/// starts spawns one, and the start after the `n`-th spawn ends the run.
pub proof fn lemma_budget_spawns_exactly(n: u32, k: nat)
    ensures
        k <= n ==> spend_times(Some(n), k) == Some((n - k) as u32),
        k < n ==> budget_allows(spend_times(Some(n), k)),
        !budget_allows(spend_times(Some(n), n as nat)),
{
    lemma_spend_times(n, k);
    lemma_spend_times(n, n as nat);
}

proof fn lemma_spend_times(n: u32, k: nat)
    ensures
        k <= n ==> spend_times(Some(n), k) == Some((n - k) as u32),
    decreases k,
{
    if k > 0 {
        lemma_spend_times(n, (k - 1) as nat);
    }
}

/// The kept output after the lines `lines` arrived on top of `kept`, one by one.
pub open spec fn keep_lines(
    kept: Seq<(Channel, Seq<char>)>,
    lines: Seq<(Channel, Seq<char>)>,
) -> Seq<(Channel, Seq<char>)>
    decreases lines.len(),
{
    if lines.len() == 0 {
        kept
    } else {
        keep_lines(kept, lines.drop_last()).push(lines.last())
    }
}

/// In only-last mode an iteration starts with nothing kept and appends each of
/// its lines, so what is kept after it is exactly its own output, whatever
/// earlier iterations printed.
pub proof fn lemma_only_last_keeps_latest(earlier: Seq<(Channel, Seq<char>)>, lines: Seq<(Channel, Seq<char>)>)
    ensures
        keep_lines(earlier.take(0), lines) == lines,
    decreases lines.len(),
{
    if lines.len() > 0 {
        lemma_only_last_keeps_latest(earlier, lines.drop_last());
        assert(lines.drop_last().push(lines.last()) =~= lines);
    } else {
        assert(earlier.take(0) =~= lines);
    }
}

pub open spec fn opt_text(o: Option<String>) -> Option<Seq<char>> {
    match o {
        Some(s) => Some(s@),
        None => None,
    }
}

/// The item an iteration carries, as text.
pub open spec fn item_text(i: NextItem) -> Option<Seq<char>> {
    match i {
        NextItem::Item(s) => Some(s@),
        _ => None,
    }
}

/// `t` is `s` with one iteration of outcome `success` and exit code `code` recorded.
pub open spec fn recorded(s: Summary, t: Summary, success: bool, code: i32) -> bool {
    if success {
        &&& t.successes == if s.successes == u64::MAX { u64::MAX as int } else { s.successes + 1 }
        &&& t.failures@ == s.failures@
    } else {
        &&& t.successes == s.successes
        &&& t.failures@ == s.failures@.push(code)
    }
}

} // verus!
