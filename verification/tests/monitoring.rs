use grainlify_core::monitoring::emit_performance;
use grainlify_core::monitoring::get_analytics;
use grainlify_core::monitoring::get_performance_stats;
use grainlify_core::monitoring::get_state_snapshot;
use grainlify_core::monitoring::health_check;
use grainlify_core::monitoring::track_operation;
use grainlify_core::monitoring::Telemetry;

#[test]
fn analytics_round_trip_basis_points() {
    // k = 4 tracked operations, e = 1 failure: floor(1 * 10000 / 4) = 2500
    let mut t = Telemetry::new();
    track_operation(&mut t, 1, 10, true, 5);
    track_operation(&mut t, 1, 10, false, 6);
    track_operation(&mut t, 2, 11, true, 7);
    track_operation(&mut t, 2, 11, true, 8);
    let a = get_analytics(&t);
    assert_eq!(a.operation_count, 4);
    assert_eq!(a.error_count, 1);
    assert_eq!(a.error_rate, 2500);
    assert_eq!(a.unique_users, 0);
}

#[test]
fn analytics_rate_rounds_down() {
    // k = 3, e = 2: floor(2 * 10000 / 3) = 6666
    let mut t = Telemetry::new();
    track_operation(&mut t, 1, 1, false, 0);
    track_operation(&mut t, 1, 1, false, 0);
    track_operation(&mut t, 1, 1, true, 0);
    assert_eq!(get_analytics(&t).error_rate, 6666);
}

#[test]
fn analytics_zero_operations_zero_rate() {
    let t = Telemetry::new();
    let a = get_analytics(&t);
    assert_eq!(a.operation_count, 0);
    assert_eq!(a.error_count, 0);
    assert_eq!(a.error_rate, 0);
}

#[test]
fn performance_stats_average_of_three_samples() {
    // three samples of 10, 20, 30: count 3, total 60, average 20
    let upgrade_op: u64 = 2;
    let mut t = Telemetry::new();
    emit_performance(&mut t, upgrade_op, 10, 100);
    emit_performance(&mut t, upgrade_op, 20, 200);
    emit_performance(&mut t, upgrade_op, 30, 300);
    let s = get_performance_stats(&t, upgrade_op);
    assert_eq!(s.call_count, 3);
    assert_eq!(s.total_time, 60);
    assert_eq!(s.avg_time, 20);
    assert_eq!(s.last_called, 300);
    assert_eq!(s.function_name, upgrade_op);
}

#[test]
fn performance_stats_of_unknown_name_are_zero() {
    let t = Telemetry::new();
    let s = get_performance_stats(&t, 9);
    assert_eq!(s.call_count, 0);
    assert_eq!(s.total_time, 0);
    assert_eq!(s.avg_time, 0);
    assert_eq!(s.last_called, 0);
}

#[test]
fn performance_names_are_independent() {
    let mut t = Telemetry::new();
    emit_performance(&mut t, 1, 10, 1);
    emit_performance(&mut t, 2, 99, 2);
    emit_performance(&mut t, 1, 30, 3);
    let s1 = get_performance_stats(&t, 1);
    let s2 = get_performance_stats(&t, 2);
    assert_eq!((s1.call_count, s1.total_time, s1.avg_time), (2, 40, 20));
    assert_eq!((s2.call_count, s2.total_time, s2.avg_time), (1, 99, 99));
}

#[test]
fn track_operation_returns_the_audit_record() {
    let mut t = Telemetry::new();
    let m = track_operation(&mut t, 3, 42, false, 777);
    assert_eq!(m.operation, 3);
    assert_eq!(m.caller, 42);
    assert_eq!(m.timestamp, 777);
    assert!(!m.success);
    let p = emit_performance(&mut t, 3, 12, 778);
    assert_eq!(p.function, 3);
    assert_eq!(p.duration, 12);
    assert_eq!(p.timestamp, 778);
}

#[test]
fn health_check_and_snapshot_report_counters() {
    let mut t = Telemetry::new();
    track_operation(&mut t, 1, 5, true, 10);
    track_operation(&mut t, 1, 5, false, 11);
    let h = health_check(&t, 99);
    assert!(h.is_healthy);
    assert_eq!(h.last_operation, 99);
    assert_eq!(h.total_operations, 2);
    assert_eq!(h.contract_version, "1.0.0");
    let s = get_state_snapshot(&t, 100);
    assert_eq!(s.timestamp, 100);
    assert_eq!(s.total_operations, 2);
    assert_eq!(s.total_users, 0);
    assert_eq!(s.total_errors, 1);
}

#[test]
fn duration_saturates_at_zero_on_clock_anomaly() {
    // a start reading later than the end reading yields a zero duration
    let mut g = grainlify_core::governance::GrainlifyContract::new();
    g.init_admin(1, 500, 400).unwrap();
    let s = g.get_performance_stats(grainlify_core::governance::OP_INIT);
    assert_eq!(s.call_count, 1);
    assert_eq!(s.total_time, 0);
    assert_eq!(s.last_called, 400);
}
