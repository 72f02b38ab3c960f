//! The scenario sweep controller: for one map implementation it decides, in
//! order, which scenario to execute next, captures the baseline throughput,
//! applies the adaptive stop rule, and demands the quiescence step between
//! scenarios. The blocking workload executor is outside this crate: the
//! caller runs it and hands each measurement back to the controller.

use vstd::prelude::*;

verus! {

/// The result of executing one scenario. Durations are held in nanoseconds
/// and throughput in whole operations per second.
#[derive(Clone, Copy, Debug, PartialEq, Eq, Structural)]
pub struct Measurement {
    pub total_ops: u64,
    pub spent_nanos: u64,
    pub throughput: u64,
    pub latency_nanos: u64,
}

/// How a sweep ended.
#[derive(Clone, Copy, Debug, PartialEq, Eq, Structural)]
pub enum SweepOutcome {
    /// The implementation's name was on the skip list; nothing executed.
    Skipped,
    /// Every scenario of the sequence executed.
    Completed,
    /// The stop rule fired; the remaining scenarios were not executed.
    Truncated,
}

/// Where the controller stands between calls.
#[derive(Clone, Copy, Debug, PartialEq, Eq, Structural)]
pub enum SweepPhase {
    /// The next scenario may be executed.
    Ready,
    /// A scenario's measurement is recorded; the quiescence step must run
    /// before anything else — also when the stop rule just fired
    /// (`truncated`), since the step is never skipped, even when the sweep
    /// is about to terminate.
    AwaitingQuiesce { truncated: bool },
    /// The sweep is over.
    Finished(SweepOutcome),
}

/// What the caller must do next.
#[derive(Clone, Copy, Debug, PartialEq, Eq, Structural)]
pub enum SweepAction {
    /// Execute the scenario at this index of the scenario sequence and hand
    /// the measurement back through `record_measurement`.
    Execute(usize),
    /// Sleep the configured pause, then call `quiesce`.
    Quiesce,
    /// The sweep ended with this outcome; report it.
    Finish(SweepOutcome),
}

/// Whether `name` occurs in the skip list.
pub open spec fn spec_skipped(names: Seq<String>, name: Seq<char>) -> bool {
    exists|i: int| 0 <= i < names.len() && names[i]@ == name
}

/// The sweep state across the scenarios of one map implementation's sweep.
/// The baseline is the throughput of the sweep's first executed scenario;
/// once captured it is never overwritten for the rest of the sweep.
#[derive(Clone, Copy, Debug)]
pub struct SweepController {
    pub scenario_count: usize,
    pub next_index: usize,
    pub baseline: Option<u64>,
    pub phase: SweepPhase,
}

/// A fresh controller: skipped sweeps and empty scenario sequences finish
/// immediately, everything else starts before the first scenario.
pub open spec fn spec_new(skipped: bool, scenario_count: usize) -> SweepController {
    SweepController {
        scenario_count: scenario_count,
        next_index: 0,
        baseline: None,
        phase: if skipped {
            SweepPhase::Finished(SweepOutcome::Skipped)
        } else if scenario_count == 0 {
            SweepPhase::Finished(SweepOutcome::Completed)
        } else {
            SweepPhase::Ready
        },
    }
}

/// The stop rule: unless exhaustive completion is requested, a throughput
/// at or below a fifth of the baseline truncates the sweep.
pub open spec fn spec_stop(baseline: u64, throughput: u64, complete_slow: bool) -> bool {
    !complete_slow && throughput <= baseline / 5
}

/// The baseline in force once a measurement with throughput `t` is
/// recorded: the existing baseline, or `t` for the sweep's first scenario.
pub open spec fn spec_baseline_after(s: SweepController, t: u64) -> u64 {
    match s.baseline {
        Some(b) => b,
        None => t,
    }
}

/// The controller after a measurement with throughput `t` is recorded: the
/// quiescence step is owed either way; the stop rule only decides whether
/// the sweep is truncated once that step has run.
pub open spec fn spec_record(s: SweepController, t: u64, complete_slow: bool) -> SweepController {
    let b = spec_baseline_after(s, t);
    if spec_stop(b, t, complete_slow) {
        SweepController {
            scenario_count: s.scenario_count,
            next_index: s.next_index,
            baseline: Some(b),
            phase: SweepPhase::AwaitingQuiesce { truncated: true },
        }
    } else {
        SweepController {
            scenario_count: s.scenario_count,
            next_index: (s.next_index + 1) as usize,
            baseline: Some(b),
            phase: SweepPhase::AwaitingQuiesce { truncated: false },
        }
    }
}

/// The controller after the quiescence step: truncated if the stop rule
/// fired, finished when every scenario ran, else on to the next scenario.
/// Identity outside the quiescence phase.
pub open spec fn spec_quiesce_state(s: SweepController) -> SweepController {
    match s.phase {
        SweepPhase::AwaitingQuiesce { truncated } => SweepController {
            scenario_count: s.scenario_count,
            next_index: s.next_index,
            baseline: s.baseline,
            phase: if truncated {
                SweepPhase::Finished(SweepOutcome::Truncated)
            } else if s.next_index == s.scenario_count {
                SweepPhase::Finished(SweepOutcome::Completed)
            } else {
                SweepPhase::Ready
            },
        },
        _ => s,
    }
}

/// The action a controller state demands.
pub open spec fn spec_action(s: SweepController) -> SweepAction {
    match s.phase {
        SweepPhase::Ready => SweepAction::Execute(s.next_index),
        SweepPhase::AwaitingQuiesce { .. } => SweepAction::Quiesce,
        SweepPhase::Finished(o) => SweepAction::Finish(o),
    }
}

/// How many scenarios a sweep from state `s` executes when the executor
/// returns the throughputs `ts` in scenario order.
pub open spec fn spec_executed(s: SweepController, ts: Seq<u64>, complete_slow: bool) -> nat
    decreases ts.len(),
{
    if s.phase is Ready && ts.len() > 0 {
        (1 + spec_executed(
            spec_quiesce_state(spec_record(s, ts[0], complete_slow)),
            ts.skip(1),
            complete_slow,
        )) as nat
    } else {
        0
    }
}

impl SweepController {
    /// The controller's phase never points past the scenario sequence.
    pub open spec fn wf(self) -> bool {
        match self.phase {
            SweepPhase::Ready => self.next_index < self.scenario_count,
            SweepPhase::AwaitingQuiesce { .. } => self.next_index <= self.scenario_count,
            SweepPhase::Finished(_) => self.next_index <= self.scenario_count,
        }
    }

    /// Starts the sweep of one map implementation over `scenario_count`
    /// scenarios. An implementation whose name is on the skip list finishes
    /// at once as skipped: no scenario executes and no baseline is captured.
    pub fn new(name: &String, skip: &Vec<String>, scenario_count: usize) -> (s: SweepController)
        ensures
            s == spec_new(spec_skipped(skip@, name@), scenario_count),
            s.wf(),
    {
        let skipped = contains_name(skip, name);
        SweepController {
            scenario_count,
            next_index: 0,
            baseline: None,
            phase: if skipped {
                SweepPhase::Finished(SweepOutcome::Skipped)
            } else if scenario_count == 0 {
                SweepPhase::Finished(SweepOutcome::Completed)
            } else {
                SweepPhase::Ready
            },
        }
    }

    /// What the caller must do next; an execution demand always points at a
    /// scenario of the sequence.
    pub fn next_action(&self) -> (a: SweepAction)
        requires
            self.wf(),
        ensures
            a == spec_action(*self),
            a matches SweepAction::Execute(i) ==> i < self.scenario_count,
    {
        match self.phase {
            SweepPhase::Ready => SweepAction::Execute(self.next_index),
            SweepPhase::AwaitingQuiesce { .. } => SweepAction::Quiesce,
            SweepPhase::Finished(o) => SweepAction::Finish(o),
        }
    }

    /// Records the measurement of the scenario just executed. The sweep's
    /// first measurement fixes the baseline; a baseline once captured is
    /// never overwritten. Control then always passes to the quiescence
    /// step — the step is never skipped, even when the stop rule just
    /// fired — and the stop rule decides whether the sweep is truncated
    /// once that step has run.
    pub fn record_measurement(&mut self, m: &Measurement, complete_slow: bool)
        requires
            old(self).wf(),
            old(self).phase is Ready,
        ensures
            final(self).wf(),
            *final(self) == spec_record(*old(self), m.throughput, complete_slow),
            final(self).scenario_count == old(self).scenario_count,
            final(self).baseline == Some(spec_baseline_after(*old(self), m.throughput)),
            old(self).baseline is Some ==> final(self).baseline == old(self).baseline,
            final(self).phase is AwaitingQuiesce,
            final(self).phase == (SweepPhase::AwaitingQuiesce { truncated: true }) <==> spec_stop(
                spec_baseline_after(*old(self), m.throughput),
                m.throughput,
                complete_slow,
            ),
            !spec_stop(spec_baseline_after(*old(self), m.throughput), m.throughput, complete_slow)
                ==> final(self).next_index == old(self).next_index + 1,
    {
        let baseline = match self.baseline {
            Some(b) => b,
            None => m.throughput,
        };
        self.baseline = Some(baseline);
        if !complete_slow && m.throughput <= baseline / 5 {
            self.phase = SweepPhase::AwaitingQuiesce { truncated: true };
        } else {
            self.next_index = self.next_index + 1;
            self.phase = SweepPhase::AwaitingQuiesce { truncated: false };
        }
    }

    /// Moves the sweep past a finished quiescence step: to the truncated
    /// end when the stop rule fired, to the completed end when every
    /// scenario ran, else to the next scenario. State change only;
    /// `quiesce` is the step itself.
    pub fn mark_quiesced(&mut self)
        requires
            old(self).wf(),
            old(self).phase is AwaitingQuiesce,
        ensures
            final(self).wf(),
            *final(self) == spec_quiesce_state(*old(self)),
    {
        let truncated = matches!(self.phase, SweepPhase::AwaitingQuiesce { truncated: true });
        if truncated {
            self.phase = SweepPhase::Finished(SweepOutcome::Truncated);
        } else if self.next_index == self.scenario_count {
            self.phase = SweepPhase::Finished(SweepOutcome::Completed);
        } else {
            self.phase = SweepPhase::Ready;
        }
    }

    /// The quiescence step, less the bounded sleep, which the caller
    /// performs before this call: advances the reclamation epochs to
    /// completion, then moves the sweep on. It has no failure mode, it runs
    /// once after every executed scenario — a truncating one included —
    /// and it returns before the controller can demand another execution,
    /// so quiescence always finishes before the next scenario's executor
    /// call begins.
    pub fn quiesce(&mut self)
        requires
            old(self).wf(),
            old(self).phase is AwaitingQuiesce,
        ensures
            final(self).wf(),
            *final(self) == spec_quiesce_state(*old(self)),
    {
        crate::quiesce::advance_reclamation_epochs();
        self.mark_quiesced();
    }
}

/// Whether `name` is one of `names`, compared by characters.
pub fn contains_name(names: &Vec<String>, name: &String) -> (r: bool)
    ensures
        r == spec_skipped(names@, name@),
{
    let mut idx: usize = 0;
    while idx < names.len()
        invariant
            idx <= names@.len(),
            forall|i: int| 0 <= i < idx ==> names@[i]@ != name@,
        decreases names@.len() - idx,
    {
        if names[idx].eq(name) {
            return true;
        }
        idx = idx + 1;
    }
    false
}

/// Runs a whole sweep against a stub executor that returns
/// `measurements[i]` for scenario `i`, and returns the reported records in
/// order. The result is a function of the inputs alone — the executed
/// prefix of the measurement list, cut where the stop rule fires — so two
/// runs over the same inputs report identical record sequences.
pub fn simulate_sweep(
    name: &String,
    skip: &Vec<String>,
    measurements: &Vec<Measurement>,
    complete_slow: bool,
) -> (r: Vec<Measurement>)
    ensures
        r@ == measurements@.take(
            spec_executed(
                spec_new(spec_skipped(skip@, name@), measurements@.len() as usize),
                measurements@.map_values(|mm: Measurement| mm.throughput),
                complete_slow,
            ) as int,
        ),
{
    let ghost ts = measurements@.map_values(|mm: Measurement| mm.throughput);
    let ghost total = spec_executed(
        spec_new(spec_skipped(skip@, name@), measurements@.len() as usize),
        ts,
        complete_slow,
    );
    let count = measurements.len();
    let mut ctrl = SweepController::new(name, skip, count);
    let mut reports: Vec<Measurement> = Vec::new();
    proof {
        assert(count == measurements@.len() as usize);
        assert(ts.skip(0) =~= ts);
    }
    while matches!(ctrl.phase, SweepPhase::Ready)
        invariant
            ctrl.wf(),
            ctrl.scenario_count == measurements@.len(),
            ts == measurements@.map_values(|mm: Measurement| mm.throughput),
            ts.len() == measurements@.len(),
            reports@.len() <= measurements@.len(),
            reports@ == measurements@.take(reports@.len() as int),
            ctrl.phase is Ready ==> ctrl.next_index == reports@.len(),
            total == reports@.len() + spec_executed(ctrl, ts.skip(reports@.len() as int), complete_slow),
        decreases measurements@.len() - reports@.len(),
    {
        let ghost k = reports@.len() as int;
        let ghost pre = ctrl;
        let m = measurements[ctrl.next_index];
        ctrl.record_measurement(&m, complete_slow);
        reports.push(m);
        ctrl.mark_quiesced();
        proof {
            assert(ts.skip(k)[0] == ts[k]);
            assert(ts.skip(k).skip(1) =~= ts.skip(k + 1));
            assert(reports@ =~= measurements@.take(k + 1));
            assert(ctrl == spec_quiesce_state(spec_record(pre, ts[k], complete_slow)));
        }
    }
    proof {
        assert(spec_executed(ctrl, ts.skip(reports@.len() as int), complete_slow) == 0);
        assert(reports@ == measurements@.take(total as int));
    }
    reports
}

/// Law: immediately after a measurement is recorded the controller demands
/// the quiescence step — whether or not the stop rule fired — so the step
/// is never skipped, runs once after every executed scenario, and always
/// separates two scenario executions.
pub proof fn lemma_quiescence_separates_executions(s: SweepController, t: u64, complete_slow: bool)
    requires
        s.phase is Ready,
    ensures
        spec_action(spec_record(s, t, complete_slow)) == SweepAction::Quiesce,
        !(spec_action(spec_record(s, t, complete_slow)) is Execute),
{
}

/// Law: when exhaustive completion is requested the stop rule is disabled,
/// and a sweep that stands before a scenario executes every scenario that
/// remains, whatever throughputs the executor returns.
pub proof fn lemma_complete_slow_executes_all(s: SweepController, ts: Seq<u64>)
    requires
        s.wf(),
        s.phase is Ready,
        s.scenario_count - s.next_index <= ts.len(),
    ensures
        spec_executed(s, ts, true) == s.scenario_count - s.next_index,
    decreases ts.len(),
{
    let s2 = spec_quiesce_state(spec_record(s, ts[0], true));
    if s.next_index + 1 == s.scenario_count {
        assert(spec_executed(s2, ts.skip(1), true) == 0);
    } else {
        lemma_complete_slow_executes_all(s2, ts.skip(1));
    }
}

/// The index of the first throughput in `ts` that triggers the stop rule
/// against baseline `b`, or the sequence's length when none does.
pub open spec fn spec_first_stop(b: u64, ts: Seq<u64>) -> int
    decreases ts.len(),
{
    if ts.len() == 0 {
        0
    } else if ts[0] <= b / 5 {
        0
    } else {
        1 + spec_first_stop(b, ts.skip(1))
    }
}

/// How many of the `ts.len()` remaining scenarios execute once the baseline
/// `b` is fixed and the stop rule is enabled: up to and including the first
/// scenario whose throughput drops to a fifth of the baseline or less.
proof fn lemma_executed_with_baseline(s: SweepController, ts: Seq<u64>, b: u64)
    requires
        s.wf(),
        s.phase is Ready,
        s.baseline == Some(b),
        ts.len() == s.scenario_count - s.next_index,
    ensures
        spec_executed(s, ts, false) == vstd::math::min(
            spec_first_stop(b, ts) + 1,
            ts.len() as int,
        ),
    decreases ts.len(),
{
    let s2 = spec_record(s, ts[0], false);
    let s3 = spec_quiesce_state(s2);
    if spec_stop(b, ts[0], false) {
        assert(spec_executed(s3, ts.skip(1), false) == 0);
    } else if s.next_index + 1 == s.scenario_count {
        assert(spec_executed(s3, ts.skip(1), false) == 0);
        assert(spec_first_stop(b, ts.skip(1)) >= 0) by {
            lemma_first_stop_in_range(b, ts.skip(1));
        }
    } else {
        lemma_executed_with_baseline(s3, ts.skip(1), b);
    }
}

/// The first stopping index lies between 0 and the sequence's length.
proof fn lemma_first_stop_in_range(b: u64, ts: Seq<u64>)
    ensures
        0 <= spec_first_stop(b, ts) <= ts.len(),
    decreases ts.len(),
{
    if ts.len() > 0 && !(ts[0] <= b / 5) {
        lemma_first_stop_in_range(b, ts.skip(1));
    }
}

/// Law: with the stop rule enabled, a sweep over as many scenarios as there
/// are throughputs executes them in order up to and including the first one
/// whose throughput is at most a fifth of the first scenario's throughput —
/// the baseline — and no further; when no scenario drops that far, every
/// scenario executes.
pub proof fn lemma_stop_rule_cuts_at_first_drop(count: usize, ts: Seq<u64>)
    requires
        ts.len() == count,
    ensures
        spec_executed(spec_new(false, count), ts, false) == if ts.len() == 0 {
            0int
        } else {
            vstd::math::min(spec_first_stop(ts[0], ts) + 1, ts.len() as int)
        },
{
    if ts.len() > 0 {
        let s = spec_new(false, count);
        let s2 = spec_record(s, ts[0], false);
        let s3 = spec_quiesce_state(s2);
        if spec_stop(ts[0], ts[0], false) {
            assert(spec_executed(s3, ts.skip(1), false) == 0);
        } else if count == 1 {
            assert(spec_executed(s3, ts.skip(1), false) == 0);
            lemma_first_stop_in_range(ts[0], ts.skip(1));
        } else {
            lemma_executed_with_baseline(s3, ts.skip(1), ts[0]);
        }
    }
}

/// Law: once a baseline throughput is captured it is never overwritten for
/// the remainder of the sweep.
pub proof fn lemma_baseline_stable(s: SweepController, t: u64, complete_slow: bool)
    requires
        s.baseline is Some,
    ensures
        spec_record(s, t, complete_slow).baseline == s.baseline,
        spec_quiesce_state(s).baseline == s.baseline,
{
}

} // verus!
