use conc_map_bench::quiesce::advance_reclamation_epochs;
use conc_map_bench::sweep::{
    contains_name, simulate_sweep, Measurement, SweepAction, SweepController, SweepOutcome,
    SweepPhase,
};

fn meas(throughput: u64) -> Measurement {
    Measurement {
        total_ops: 1_000_000,
        spent_nanos: 2_000_000_000,
        throughput,
        latency_nanos: 2_000,
    }
}

#[test]
fn skip_list_membership() {
    let skip = vec!["RwLock<BTreeMap>".to_string(), "Flurry".to_string()];
    assert!(contains_name(&skip, &"Flurry".to_string()));
    assert!(!contains_name(&skip, &"DashMap".to_string()));
    assert!(!contains_name(&vec![], &"Flurry".to_string()));
}

#[test]
fn skipped_implementation_executes_zero_scenarios() {
    let skip = vec!["DashMap".to_string()];
    let ctrl = SweepController::new(&"DashMap".to_string(), &skip, 5);
    assert_eq!(ctrl.next_action(), SweepAction::Finish(SweepOutcome::Skipped));
    let reports = simulate_sweep(&"DashMap".to_string(), &skip, &vec![meas(1000); 5], false);
    assert!(reports.is_empty());
}

#[test]
fn empty_scenario_sequence_completes_immediately() {
    let ctrl = SweepController::new(&"DashMap".to_string(), &vec![], 0);
    assert_eq!(ctrl.next_action(), SweepAction::Finish(SweepOutcome::Completed));
}

#[test]
fn stop_rule_truncates_after_fivefold_drop() {
    // Baseline 1000: scenario 3 observes 150 <= 1000 / 5 = 200, so it is
    // still reported but the fourth scenario never executes.
    let ms = vec![meas(1000), meas(900), meas(150), meas(800)];
    let reports = simulate_sweep(&"X".to_string(), &vec![], &ms, false);
    assert_eq!(reports, vec![meas(1000), meas(900), meas(150)]);
}

#[test]
fn stop_rule_boundary_is_inclusive() {
    // Exactly one fifth of the baseline still truncates.
    let ms = vec![meas(1000), meas(200), meas(900)];
    let reports = simulate_sweep(&"X".to_string(), &vec![], &ms, false);
    assert_eq!(reports, vec![meas(1000), meas(200)]);
}

#[test]
fn complete_slow_disables_the_stop_rule() {
    let ms = vec![meas(1000), meas(900), meas(150), meas(800)];
    let reports = simulate_sweep(&"X".to_string(), &vec![], &ms, true);
    assert_eq!(reports, ms);
}

#[test]
fn healthy_sweep_reports_every_scenario() {
    let ms = vec![meas(1000), meas(900), meas(800)];
    let reports = simulate_sweep(&"X".to_string(), &vec![], &ms, false);
    assert_eq!(reports, ms);
}

#[test]
fn rerunning_the_same_sweep_reports_identical_records() {
    let ms = vec![meas(1000), meas(900), meas(150), meas(800)];
    let first = simulate_sweep(&"X".to_string(), &vec![], &ms, false);
    let second = simulate_sweep(&"X".to_string(), &vec![], &ms, false);
    assert_eq!(first, second);
}

#[test]
fn baseline_is_never_overwritten() {
    let mut ctrl = SweepController::new(&"X".to_string(), &vec![], 3);
    ctrl.record_measurement(&meas(1000), false);
    assert_eq!(ctrl.baseline, Some(1000));
    ctrl.quiesce();
    ctrl.record_measurement(&meas(5000), false);
    assert_eq!(ctrl.baseline, Some(1000));
}

#[test]
fn quiescence_separates_executions() {
    // After a recorded measurement the controller never demands another
    // execution until the quiescence step has run.
    let mut ctrl = SweepController::new(&"X".to_string(), &vec![], 2);
    assert_eq!(ctrl.next_action(), SweepAction::Execute(0));
    ctrl.record_measurement(&meas(1000), false);
    assert_eq!(ctrl.next_action(), SweepAction::Quiesce);
    ctrl.quiesce();
    assert_eq!(ctrl.next_action(), SweepAction::Execute(1));
    ctrl.record_measurement(&meas(900), false);
    assert_eq!(ctrl.next_action(), SweepAction::Quiesce);
    ctrl.quiesce();
    assert_eq!(ctrl.next_action(), SweepAction::Finish(SweepOutcome::Completed));
}

#[test]
fn truncation_is_reported_as_the_outcome() {
    let mut ctrl = SweepController::new(&"X".to_string(), &vec![], 3);
    ctrl.record_measurement(&meas(1000), false);
    ctrl.quiesce();
    ctrl.record_measurement(&meas(100), false);
    assert_eq!(ctrl.phase, SweepPhase::AwaitingQuiesce { truncated: true });
    ctrl.quiesce();
    assert_eq!(ctrl.phase, SweepPhase::Finished(SweepOutcome::Truncated));
    assert_eq!(ctrl.next_action(), SweepAction::Finish(SweepOutcome::Truncated));
}

#[test]
fn quiescence_runs_after_a_truncating_scenario() {
    // The quiescence step is not skipped when the sweep is about to
    // terminate: a measurement that fires the stop rule still demands
    // quiescence, and only then does the sweep finish as truncated.
    let mut ctrl = SweepController::new(&"X".to_string(), &vec![], 3);
    ctrl.record_measurement(&meas(1000), false);
    assert_eq!(ctrl.next_action(), SweepAction::Quiesce);
    ctrl.quiesce();
    ctrl.record_measurement(&meas(150), false);
    assert_eq!(ctrl.next_action(), SweepAction::Quiesce);
    ctrl.quiesce();
    assert_eq!(ctrl.next_action(), SweepAction::Finish(SweepOutcome::Truncated));
}

#[test]
fn quiescence_step_runs_to_completion() {
    // The reclamation-epoch advancement has no failure mode.
    advance_reclamation_epochs();
    advance_reclamation_epochs();
}
