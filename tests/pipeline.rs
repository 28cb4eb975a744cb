use realtime_pipeline::actuator::{classify_status, make_feedback, ActuatorState};
use realtime_pipeline::clock::{jitter_ns, period_ns, tick_offset_ns};
use realtime_pipeline::dashboard::{DashboardBuffer, DashboardData, DashboardRing, MetricsSnapshot};
use realtime_pipeline::diagnostics::SharedDiagnostics;
use realtime_pipeline::metrics::{
    actuator_cycle_result, overshoot_ns, sensor_cycle_result, CycleResult,
};
use realtime_pipeline::pid::PidController;
use realtime_pipeline::recorder::{BenchmarkRecorder, RecordLog};
use realtime_pipeline::sensor::SensorState;
use realtime_pipeline::stats::{summarize, Selection};
use realtime_pipeline::sync_strategies::{
    AtomicStrategy, MutexStrategy, RwLockStrategy, SyncStrategy,
};
use realtime_pipeline::types::{ActuatorFeedback, ActuatorStatus, ActuatorType, SensorData};
use realtime_pipeline::workload::{
    create_sync_strategy, run_producer, synthetic_result, AnyStrategy, WORKLOAD_OPERATIONS,
    WORKLOAD_PRODUCERS,
};

fn sample_at(id: u64, position: i64) -> SensorData {
    SensorData { id, timestamp: 0, force: 50_000, position, temperature: 25_000 }
}

fn feedback_with_error(error: i64, status: ActuatorStatus) -> ActuatorFeedback {
    ActuatorFeedback { sensor_id: 0, status, control_output: 0, error, timestamp: 0 }
}

fn consistent(r: &CycleResult) -> bool {
    r.lateness_ns >= 0 && (r.deadline_met == (r.lateness_ns == 0))
}

#[test]
fn overshoot_is_zero_within_deadline() {
    assert_eq!(overshoot_ns(150, 200), 0);
    assert_eq!(overshoot_ns(200, 200), 0);
    assert_eq!(overshoot_ns(250, 200), 50);
}

#[test]
fn actuator_deadlines_per_kind() {
    assert_eq!(ActuatorType::Gripper.deadline_ns(), 1_000_000);
    assert_eq!(ActuatorType::Motor.deadline_ns(), 2_000_000);
    assert_eq!(ActuatorType::Stabilizer.deadline_ns(), 1_500_000);
}

#[test]
fn actuator_records_are_consistent() {
    let mode = String::from("threaded");
    for &t in &[0u64, 999_999, 1_000_000, 1_000_001, 1_700_000, 2_500_000] {
        for kind in [ActuatorType::Gripper, ActuatorType::Motor, ActuatorType::Stabilizer] {
            let r = actuator_cycle_result(kind, 7, &mode, 5_000, 1_000, t, 3);
            assert!(consistent(&r));
            assert_eq!(r.total_latency_ns, 4_000);
            assert_eq!(r.actuator, Some(kind));
        }
    }
    let late = actuator_cycle_result(ActuatorType::Gripper, 1, &mode, 10, 0, 1_250_000, 0);
    assert!(!late.deadline_met);
    assert_eq!(late.lateness_ns, 250_000);
    let stab = actuator_cycle_result(ActuatorType::Stabilizer, 1, &mode, 10, 0, 1_500_000, 0);
    assert!(stab.deadline_met);
    assert_eq!(stab.lateness_ns, 0);
}

#[test]
fn sensor_records_are_consistent_when_sent() {
    let mode = String::from("async");
    let cases = [(0u64, 0u64), (200_000, 100_000), (250_000, 0), (0, 130_000), (300_000, 150_000)];
    for &(p, t) in &cases {
        let r = sensor_cycle_result(3, &mode, 1, p, t, true, 0);
        assert!(consistent(&r));
        assert_eq!(r.actuator, None);
    }
    let r = sensor_cycle_result(3, &mode, 1, 300_000, 150_000, true, 0);
    assert_eq!(r.lateness_ns, 100_000);
    let r = sensor_cycle_result(3, &mode, 1, 210_000, 180_000, true, 0);
    assert_eq!(r.lateness_ns, 80_000);
}

#[test]
fn sensor_record_misses_when_queue_full() {
    let mode = String::from("async");
    let r = sensor_cycle_result(9, &mode, 1, 10, 10, false, 0);
    assert!(!r.deadline_met);
    assert_eq!(r.lateness_ns, 0);
}

#[test]
fn sensor_cycle_ids_increase_from_zero() {
    let mut s = SensorState::new();
    let mut ids = Vec::new();
    for k in 0..50i64 {
        let reading = s.sample(50_000 + k, 0, 0, k as u64 * 10);
        ids.push(reading.data.id);
        s.finish_cycle();
    }
    assert_eq!(ids[0], 0);
    for w in ids.windows(2) {
        assert_eq!(w[1], w[0] + 1);
    }
    assert_eq!(s.cycle_id(), 50);
}

#[test]
fn sensor_filter_is_windowed_mean() {
    let mut s = SensorState::new();
    assert_eq!(s.filter_window(), 5);
    let forces = [10_000i64, 20_000, 30_000, 40_000, 50_000, 60_000];
    let mut last = 0;
    for &f in &forces {
        last = s.sample(f, 0, 0, 0).data.force;
    }
    // window of 5: 20..60 thousand, mean 40 000
    assert_eq!(last, 40_000);
    let r = s.sample(-1, 0, 0, 0);
    // 30 000 + 40 000 + 50 000 + 60 000 - 1 = 179 999, / 5 rounded down
    assert_eq!(r.data.force, 35_999);
    let mut n = SensorState::new();
    assert_eq!(n.sample(-3, 0, 0, 0).data.force, -3);
    assert_eq!(n.sample(-4, 0, 0, 0).data.force, -4);
}

#[test]
fn sensor_detects_anomaly() {
    let mut s = SensorState::new();
    let r = s.sample(80_000, 0, 0, 0);
    assert!(!r.anomaly);
    let r = s.sample(90_000, 0, 0, 0);
    assert!(r.anomaly);
    assert_eq!(r.data.force, 85_000);
}

#[test]
fn sensor_position_and_temperature_walk() {
    let mut s = SensorState::new();
    let r = s.sample(0, 250, 7_000, 0);
    assert_eq!(r.data.position, 10_250);
    assert_eq!(r.data.temperature, 30_000);
    let r = s.sample(0, -50, -20_000, 0);
    assert_eq!(r.data.position, 10_200);
    assert_eq!(r.data.temperature, 20_000);
}

#[test]
fn filter_window_stays_in_range() {
    let mut s = SensorState::new();
    for _ in 0..20 {
        s.apply_feedback(&feedback_with_error(9_000, ActuatorStatus::Correcting));
        assert!(s.filter_window() >= 3 && s.filter_window() <= 10);
    }
    assert_eq!(s.filter_window(), 10);
    for _ in 0..20 {
        s.apply_feedback(&feedback_with_error(500, ActuatorStatus::Normal));
        assert!(s.filter_window() >= 3 && s.filter_window() <= 10);
    }
    assert_eq!(s.filter_window(), 3);
    // middle band: no change
    s.apply_feedback(&feedback_with_error(3_000, ActuatorStatus::Normal));
    assert_eq!(s.filter_window(), 3);
    s.apply_feedback(&feedback_with_error(-5_001, ActuatorStatus::Correcting));
    assert_eq!(s.filter_window(), 4);
    s.apply_feedback(&feedback_with_error(5_000, ActuatorStatus::Correcting));
    assert_eq!(s.filter_window(), 4);
    s.apply_feedback(&feedback_with_error(-999, ActuatorStatus::Normal));
    assert_eq!(s.filter_window(), 3);
}

#[test]
fn shrinking_window_keeps_recent_forces() {
    let mut s = SensorState::new();
    for &f in &[1_000i64, 2_000, 3_000, 4_000, 5_000] {
        s.sample(f, 0, 0, 0);
    }
    s.apply_feedback(&feedback_with_error(0, ActuatorStatus::Normal));
    s.apply_feedback(&feedback_with_error(0, ActuatorStatus::Normal));
    assert_eq!(s.filter_window(), 3);
    assert_eq!(s.filtered_force(), 4_000);
}

#[test]
fn feedback_compensates_position() {
    let mut s = SensorState::new();
    s.apply_feedback(&feedback_with_error(4_000, ActuatorStatus::Normal));
    assert_eq!(s.position_base(), 9_960);
    s.apply_feedback(&feedback_with_error(-6_050, ActuatorStatus::Correcting));
    assert_eq!(s.position_base(), 10_021);
    s.apply_feedback(&feedback_with_error(3_000, ActuatorStatus::Normal));
    assert_eq!(s.position_base(), 10_021);
}

#[test]
fn emergency_feedback_is_reported() {
    let mut s = SensorState::new();
    assert!(s.apply_feedback(&feedback_with_error(12_000, ActuatorStatus::Emergency)));
    assert!(!s.apply_feedback(&feedback_with_error(12_000, ActuatorStatus::Correcting)));
}

#[test]
fn pid_zero_error_gives_zero() {
    let mut pid = PidController::new(1000, 100, 10);
    assert_eq!(pid.compute(0, 10), 0);
}

#[test]
fn pid_integral_accumulates() {
    let mut pid = PidController::new(1000, 100, 10);
    let e = 2_000;
    let first = pid.compute(e, 10);
    let second = pid.compute(e, 10);
    let proportional = 1000 * e * 1000;
    // first: 2e9 + 100 * 20 000 + 10 * 2 000 * 1e6 / 10
    assert_eq!(first, 2_000_000_000 + 2_000_000 + 2_000_000_000);
    assert!(second > proportional);
    assert_eq!(second, 2_000_000_000 + 4_000_000);
}

#[test]
fn pid_exact_output_with_negative_derivative() {
    let mut pid = PidController::new(1000, 0, 10);
    pid.compute(0, 3);
    // proportional: 1000 * (-1) * 1000; derivative: 10 * (-1) * 1e6 / 3 rounded down
    assert_eq!(pid.compute(-1, 3), -1_000_000 - 3_333_334);
}

#[test]
fn pid_zero_dt_has_no_derivative() {
    let mut pid = PidController::new(1000, 100, 10);
    assert_eq!(pid.compute(5_000, 0), 5_000_000_000);
}

#[test]
fn pid_integral_is_clamped() {
    let mut pid = PidController::new(0, 1000, 0);
    let mut out = 0;
    for _ in 0..100 {
        out = pid.compute(10_000_000, 1000);
    }
    // integral saturates at 100 unit-seconds
    assert_eq!(out, 1000 * 100_000_000);
    for _ in 0..300 {
        out = pid.compute(-10_000_000, 1000);
    }
    assert_eq!(out, -1000 * 100_000_000);
}

#[test]
fn pid_reset_clears_state() {
    let mut pid = PidController::new(1000, 100, 10);
    pid.compute(3_000, 10);
    pid.reset();
    assert_eq!(pid.compute(0, 10), 0);
}

#[test]
fn classify_large_error_is_emergency() {
    assert_eq!(classify_status(10_001, 5_000), ActuatorStatus::Emergency);
    assert_eq!(classify_status(-10_001, 5_000), ActuatorStatus::Emergency);
    assert_eq!(classify_status(10_000, 5_000), ActuatorStatus::Correcting);
    assert_eq!(classify_status(5_000, 5_000), ActuatorStatus::Normal);
    assert_eq!(classify_status(5_001, 5_000), ActuatorStatus::Correcting);
}

#[test]
fn injected_pid_positions_fifteen_give_emergencies() {
    let pid = PidController::new(1000, 0, 0);
    let mut act = ActuatorState::with_controller(ActuatorType::Gripper, pid);
    let mut sensor = SensorState::new();
    let diag = SharedDiagnostics::new();
    let mut feedback = Vec::new();
    for id in 0..3u64 {
        let sample = sample_at(id, 15_000);
        let out = act.process(&sample, 10);
        assert_eq!(out.status, ActuatorStatus::Emergency);
        assert_eq!(out.error, -15_000);
        assert_eq!(out.control, -15_000 * 1000 * 1000);
        feedback.push(make_feedback(&sample, &out, 100 + id));
    }
    for f in &feedback {
        if sensor.apply_feedback(f) {
            diag.record_emergency();
        }
    }
    assert!(diag.emergencies() >= 3);
    assert_eq!(feedback[2].sensor_id, 2);
    assert_eq!(feedback[2].timestamp, 102);
}

#[test]
fn steady_position_six_keeps_correcting() {
    let mut act = ActuatorState::new(ActuatorType::Motor);
    for id in 0..200u64 {
        let out = act.process(&sample_at(id, 6_000), 5);
        assert_eq!(out.status, ActuatorStatus::Correcting);
    }
    // |error| = 6.0 lies between the calm (2.0) and high (8.0) marks
    assert_eq!(act.error_threshold(), 5_000);
}

#[test]
fn threshold_adapts_within_bounds() {
    let mut act = ActuatorState::new(ActuatorType::Stabilizer);
    for id in 0..500u64 {
        act.process(&sample_at(id, 9_000), 5);
        let t = act.error_threshold();
        assert!(t >= 3_000 && t <= 7_000);
    }
    assert_eq!(act.error_threshold(), 7_000);
    for id in 0..500u64 {
        act.process(&sample_at(id, 500), 5);
        let t = act.error_threshold();
        assert!(t >= 3_000 && t <= 7_000);
    }
    assert_eq!(act.error_threshold(), 3_000);
    let mut fresh = ActuatorState::new(ActuatorType::Gripper);
    fresh.process(&sample_at(0, 1_000), 5);
    assert_eq!(fresh.error_threshold(), 4_950);
    fresh.process(&sample_at(1, -9_000), 5);
    assert_eq!(fresh.error_threshold(), 4_999);
}

#[test]
fn record_log_counts_missed() {
    let mut log = RecordLog::new();
    for i in 0..10usize {
        log.record(synthetic_result(0, i * 10, 0));
    }
    // ids are 0, 10, ..., 90: only id 0 misses its deadline
    assert_eq!(log.len(), 10);
    assert_eq!(log.missed_deadlines(), 1);
    let snap = log.snapshot();
    let missed = snap.iter().filter(|r| !r.deadline_met).count();
    assert_eq!(missed, log.missed_deadlines());
}

#[test]
fn recorder_missed_matches_records() {
    let rec = BenchmarkRecorder::new();
    let mode = String::from("threaded");
    rec.record(actuator_cycle_result(ActuatorType::Motor, 0, &mode, 10, 0, 3_000_000, 0));
    rec.record(actuator_cycle_result(ActuatorType::Motor, 1, &mode, 10, 0, 1_000, 0));
    rec.record(sensor_cycle_result(2, &mode, 1, 10, 10, false, 0));
    let results = rec.get_results();
    assert_eq!(results.len(), 3);
    let missed = results.iter().filter(|r| !r.deadline_met).count();
    assert_eq!(rec.missed_deadlines(), missed);
    assert_eq!(missed, 2);
    let shared = rec.share();
    shared.record(actuator_cycle_result(ActuatorType::Motor, 3, &mode, 10, 0, 1_000, 0));
    assert_eq!(rec.get_results().len(), 4);
}

#[test]
fn snapshots_only_grow() {
    let rec = BenchmarkRecorder::new();
    let mode = String::from("m");
    rec.record(actuator_cycle_result(ActuatorType::Gripper, 0, &mode, 10, 0, 1, 0));
    let first = rec.get_results();
    rec.record(actuator_cycle_result(ActuatorType::Gripper, 1, &mode, 10, 0, 1, 0));
    let second = rec.get_results();
    assert!(second.len() > first.len());
    for (a, b) in first.iter().zip(second.iter()) {
        assert_eq!(a.cycle_id, b.cycle_id);
        assert_eq!(a.mode, b.mode);
    }
}

#[test]
fn strategies_agree_on_workload() {
    let mut totals = Vec::new();
    for name in ["mutex", "rwlock", "atomic"] {
        let s = create_sync_strategy(name).unwrap();
        for p in 0..WORKLOAD_PRODUCERS {
            run_producer(&s, p, WORKLOAD_OPERATIONS);
        }
        totals.push((s.get_missed_deadlines(), s.get_results_count(), s.get_results().len()));
    }
    assert_eq!(totals[0], (40, 4000, 4000));
    assert_eq!(totals[0], totals[1]);
    assert_eq!(totals[1], totals[2]);
}

#[test]
fn strategy_names() {
    assert!(matches!(create_sync_strategy("mutex"), Some(AnyStrategy::Mutex(_))));
    assert!(matches!(create_sync_strategy("rwlock"), Some(AnyStrategy::RwLock(_))));
    assert!(matches!(create_sync_strategy("atomic"), Some(AnyStrategy::Atomic(_))));
    assert!(create_sync_strategy("spinlock").is_none());
    assert!(create_sync_strategy("").is_none());
}

#[test]
fn strategies_stamp_lock_wait() {
    let m = MutexStrategy::new();
    let r = RwLockStrategy::new();
    let a = AtomicStrategy::new();
    let mut sample = synthetic_result(1, 5, 1000);
    sample.lock_wait_ns = u64::MAX;
    m.record(sample.clone());
    r.record(sample.clone());
    a.record(sample);
    for results in [m.get_results(), r.get_results(), a.get_results()] {
        assert_eq!(results.len(), 1);
        assert_ne!(results[0].lock_wait_ns, u64::MAX);
        assert_eq!(results[0].cycle_id, 1005);
        assert_eq!(results[0].actuator, Some(ActuatorType::Gripper));
    }
}

#[test]
fn synthetic_workload_values() {
    let r = synthetic_result(2, 0, 1000);
    assert_eq!(r.cycle_id, 2000);
    assert_eq!(r.mode, "benchmark");
    assert_eq!(r.actuator, Some(ActuatorType::Motor));
    assert!(!r.deadline_met);
    assert_eq!(r.lateness_ns, 500);
    assert_eq!(r.total_latency_ns, 1000);
    let r = synthetic_result(0, 37, 1000);
    assert_eq!(r.actuator, None);
    assert_eq!(r.processing_time_ns, 87);
    assert_eq!(r.lock_wait_ns, 37);
    assert_eq!(r.total_latency_ns, 1037);
    assert!(r.deadline_met);
}

#[test]
fn diagnostics_count() {
    let d = SharedDiagnostics::default();
    d.record_anomaly();
    d.record_anomaly();
    d.record_emergency();
    assert_eq!(d.anomalies(), 2);
    assert_eq!(d.emergencies(), 1);
}

#[test]
fn schedule_is_absolute() {
    assert_eq!(tick_offset_ns(0, 10_000_000), Some(0));
    assert_eq!(tick_offset_ns(7, 10_000_000), Some(70_000_000));
    assert_eq!(tick_offset_ns(u64::MAX, 2), None);
    assert_eq!(period_ns(10), Some(10_000_000));
    assert_eq!(period_ns(u64::MAX), None);
    assert_eq!(jitter_ns(1_000, 1_250), 250);
    assert_eq!(jitter_ns(1_000, 900), -100);
}

fn event(ts: u64) -> DashboardData {
    DashboardData {
        timestamp: ts,
        sensor_data: None,
        actuator_feedback: None,
        metrics: Some(MetricsSnapshot {
            cycle_id: ts,
            processing_time_ns: 1,
            lock_wait_ns: 0,
            total_latency_ns: 2,
            deadline_met: true,
            lateness_ns: 0,
        }),
    }
}

#[test]
fn dashboard_ring_drops_oldest() {
    let mut ring = DashboardRing::new(3);
    for ts in 0..5u64 {
        ring.add(event(ts));
    }
    assert_eq!(ring.len(), 3);
    let all: Vec<u64> = ring.get_all().iter().map(|d| d.timestamp).collect();
    assert_eq!(all, vec![2, 3, 4]);
    let recent: Vec<u64> = ring.get_recent(2).iter().map(|d| d.timestamp).collect();
    assert_eq!(recent, vec![3, 4]);
    assert_eq!(ring.get_recent(10).len(), 3);
    ring.clear();
    assert_eq!(ring.len(), 0);
}

#[test]
fn dashboard_buffer_is_shared_and_bounded() {
    let buf = DashboardBuffer::new(2);
    let other = buf.share();
    buf.add(event(1));
    other.add(event(2));
    buf.add(event(3));
    assert_eq!(buf.len(), 2);
    let all: Vec<u64> = other.get_all().iter().map(|d| d.timestamp).collect();
    assert_eq!(all, vec![2, 3]);
    assert_eq!(buf.get_recent(1)[0].timestamp, 3);
    other.clear();
    assert_eq!(buf.len(), 0);
}

fn timed(actuator: Option<ActuatorType>, processing: u64, latency: u64, wait: u64, met: bool, late: i64) -> CycleResult {
    CycleResult {
        cycle_id: 0,
        mode: String::from("t"),
        actuator,
        total_latency_ns: latency,
        processing_time_ns: processing,
        lock_wait_ns: wait,
        deadline_met: met,
        lateness_ns: late,
    }
}

#[test]
fn summary_over_all_records() {
    let results = vec![
        timed(None, 100, 0, 5, true, 0),
        timed(Some(ActuatorType::Motor), 300, 2_000, 9, false, 700),
        timed(Some(ActuatorType::Gripper), 200, 1_000, 1, true, 0),
    ];
    let s = summarize(&results, Selection::All);
    assert_eq!(s.count, 3);
    assert_eq!(s.missed, 1);
    assert_eq!(s.late, 1);
    assert_eq!(s.max_lateness_ns, Some(700));
    assert_eq!(s.processing_sum_ns, 600);
    assert_eq!(s.processing_min_ns, Some(100));
    assert_eq!(s.processing_max_ns, Some(300));
    assert_eq!(s.latency_count, 2);
    assert_eq!(s.latency_sum_ns, 3_000);
    assert_eq!(s.latency_min_ns, Some(1_000));
    assert_eq!(s.latency_max_ns, Some(2_000));
    assert_eq!(s.lock_wait_sum_ns, 15);
    assert_eq!(s.lock_wait_max_ns, Some(9));
}

#[test]
fn summary_by_stage() {
    let results = vec![
        timed(None, 100, 0, 5, true, 0),
        timed(Some(ActuatorType::Motor), 300, 2_000, 9, false, 700),
        timed(Some(ActuatorType::Motor), 50, 10, 2, true, 0),
    ];
    let motor = summarize(&results, Selection::Actuator(ActuatorType::Motor));
    assert_eq!(motor.count, 2);
    assert_eq!(motor.processing_min_ns, Some(50));
    let sensor = summarize(&results, Selection::Sensor);
    assert_eq!(sensor.count, 1);
    assert_eq!(sensor.latency_count, 0);
    assert_eq!(sensor.latency_min_ns, None);
    let gripper = summarize(&results, Selection::Actuator(ActuatorType::Gripper));
    assert_eq!(gripper.count, 0);
    assert_eq!(gripper.max_lateness_ns, None);
    let empty = summarize(&Vec::new(), Selection::All);
    assert_eq!(empty.count, 0);
    assert_eq!(empty.processing_sum_ns, 0);
}

#[test]
fn summary_of_large_values_does_not_overflow() {
    let results = vec![timed(None, u64::MAX, u64::MAX, u64::MAX, true, 0); 3];
    let s = summarize(&results, Selection::All);
    assert_eq!(s.processing_sum_ns, 3 * u64::MAX as u128);
    assert_eq!(s.lock_wait_max_ns, Some(u64::MAX));
}
