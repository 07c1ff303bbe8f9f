use plugin_ipc::ipc::clock::timestamp_from;
use plugin_ipc::ipc::health::{HealthCheckResult, HealthMonitor, HealthStatus, SubprocessState};
use std::time::{Duration, Instant, SystemTime};

#[test]
fn test_subprocess_state() {
    assert!(SubprocessState::Running.is_running());
    assert!(SubprocessState::Degraded.is_running());
    assert!(!SubprocessState::Stopped.is_running());

    assert!(SubprocessState::Stopped.is_terminal());
    assert!(SubprocessState::Crashed.is_terminal());
    assert!(!SubprocessState::Running.is_terminal());

    assert!(SubprocessState::Running.can_accept_requests());
    assert!(!SubprocessState::ShuttingDown.can_accept_requests());

    assert!(SubprocessState::Crashed.needs_respawn());
    assert!(!SubprocessState::Stopped.needs_respawn());
}

#[test]
fn test_health_check_result() {
    let success = HealthCheckResult::success(Duration::from_millis(50));
    assert!(success.success);
    assert_eq!(success.latency_ms, Some(50));
    assert!(success.error.is_none());

    let failure = HealthCheckResult::failure("Timeout");
    assert!(!failure.success);
    assert!(failure.latency_ms.is_none());
    assert_eq!(failure.error, Some("Timeout".to_string()));
}

#[test]
fn test_health_monitor_basic() {
    let mut monitor = HealthMonitor::new(Duration::from_secs(30));

    assert!(!monitor.is_healthy());
    assert_eq!(monitor.state(), SubprocessState::NotStarted);

    monitor.set_state(SubprocessState::Running);
    assert!(monitor.is_healthy());
    assert_eq!(monitor.state(), SubprocessState::Running);
}

#[test]
fn test_health_monitor_success() {
    let mut monitor = HealthMonitor::new(Duration::from_secs(30));
    monitor.set_state(SubprocessState::Running);

    monitor.record_success(Duration::from_millis(50));
    monitor.record_success(Duration::from_millis(60));

    let status = monitor.status();
    assert_eq!(status.total_successes, 2);
    assert_eq!(status.consecutive_failures, 0);
    assert!(status.is_healthy);
}

#[test]
fn test_health_monitor_failure() {
    let mut monitor = HealthMonitor::new(Duration::from_secs(30)).with_max_failures(2);
    monitor.set_state(SubprocessState::Running);

    monitor.record_failure("Error 1");
    assert!(monitor.is_healthy());

    monitor.record_failure("Error 2");
    assert!(!monitor.is_healthy());
    assert_eq!(monitor.state(), SubprocessState::Degraded);
}

#[test]
fn test_health_monitor_recovery() {
    let mut monitor = HealthMonitor::new(Duration::from_secs(30)).with_max_failures(1);
    monitor.set_state(SubprocessState::Running);

    monitor.record_failure("Error");
    assert!(!monitor.is_healthy());
    assert_eq!(monitor.state(), SubprocessState::Degraded);

    monitor.record_success(Duration::from_millis(50));
    assert!(monitor.is_healthy());
    assert_eq!(monitor.state(), SubprocessState::Running);
}

#[test]
fn test_health_monitor_history() {
    let mut monitor = HealthMonitor::new(Duration::from_secs(30)).with_max_history(5);
    monitor.set_state(SubprocessState::Running);

    for i in 0..10 {
        monitor.record_success(Duration::from_millis(i * 10));
    }

    let results = monitor.recent_results();
    assert_eq!(results.len(), 5);
}

#[test]
fn test_respawn_counter() {
    let mut monitor = HealthMonitor::new(Duration::from_secs(30));

    assert_eq!(monitor.increment_respawn(), 1);
    assert_eq!(monitor.increment_respawn(), 2);
    assert_eq!(monitor.increment_respawn(), 3);
    assert!(monitor.respawn_limit_exceeded());

    monitor.reset_respawn_counter();
    assert!(!monitor.respawn_limit_exceeded());
}

#[test]
fn subprocess_state_names() {
    assert_eq!(SubprocessState::NotStarted.name(), "NOT_STARTED");
    assert_eq!(SubprocessState::Starting.name(), "STARTING");
    assert_eq!(SubprocessState::Running.name(), "RUNNING");
    assert_eq!(SubprocessState::Degraded.name(), "DEGRADED");
    assert_eq!(SubprocessState::Restarting.name(), "RESTARTING");
    assert_eq!(SubprocessState::ShuttingDown.name(), "SHUTTING_DOWN");
    assert_eq!(SubprocessState::Stopped.name(), "STOPPED");
    assert_eq!(SubprocessState::Crashed.name(), "CRASHED");
    assert_eq!(SubprocessState::Killed.name(), "KILLED");
    assert!(SubprocessState::Killed.is_terminal());
    assert!(!SubprocessState::Killed.needs_respawn());
}

#[test]
fn health_status_default_is_empty() {
    let status = HealthStatus::default();
    assert_eq!(status.state, SubprocessState::NotStarted);
    assert!(!status.is_healthy);
    assert_eq!(status.last_success_time, None);
    assert_eq!(status.last_latency_ms, None);
    assert_eq!(status.consecutive_failures, 0);
    assert_eq!(status.total_successes, 0);
    assert_eq!(status.total_failures, 0);
    assert_eq!(status.avg_latency_ms, None);
    assert_eq!(status.uptime_secs, None);
    assert_eq!(status.respawn_attempts, 0);
}

#[test]
fn samples_carry_their_timestamp() {
    let ok = HealthCheckResult::success_at(1700000000, Duration::from_millis(1234));
    assert_eq!(ok.timestamp, 1700000000);
    assert_eq!(ok.latency_ms, Some(1234));
    let bad = HealthCheckResult::failure_at(7, "boom");
    assert_eq!(bad.timestamp, 7);
    assert_eq!(bad.error.as_deref(), Some("boom"));
}

#[test]
fn history_is_fifo_and_bounded() {
    let now = Instant::now();
    let mut monitor = HealthMonitor::new(Duration::from_secs(30)).with_max_history(3);
    for i in 0..5u64 {
        monitor.record_success_at(Duration::from_millis(i * 10), now, 100 + i);
    }
    let results = monitor.recent_results();
    let stamps: Vec<u64> = results.iter().map(|r| r.timestamp).collect();
    assert_eq!(stamps, vec![102, 103, 104]);
    let latencies: Vec<Option<u64>> = results.iter().map(|r| r.latency_ms).collect();
    assert_eq!(latencies, vec![Some(20), Some(30), Some(40)]);
}

#[test]
fn history_with_zero_capacity_keeps_one() {
    let now = Instant::now();
    let mut monitor = HealthMonitor::new(Duration::from_secs(30)).with_max_history(0);
    monitor.record_success_at(Duration::from_millis(1), now, 1);
    monitor.record_failure_at("x", 2);
    let results = monitor.recent_results();
    assert_eq!(results.len(), 1);
    assert_eq!(results[0].timestamp, 2);
}

#[test]
fn mean_latency_skips_failures() {
    let now = Instant::now();
    let mut monitor = HealthMonitor::new(Duration::from_secs(30));
    monitor.set_state(SubprocessState::Running);
    monitor.record_success_at(Duration::from_millis(10), now, 1);
    monitor.record_failure_at("late", 2);
    monitor.record_success_at(Duration::from_millis(25), now, 3);
    let status = monitor.status_with(1000, Duration::from_secs(90), Duration::from_secs(40));
    assert_eq!(status.avg_latency_ms, Some(17));
    assert_eq!(status.last_latency_ms, Some(25));
    assert_eq!(status.total_successes, 2);
    assert_eq!(status.total_failures, 1);
    assert_eq!(status.consecutive_failures, 0);
    assert_eq!(status.last_success_time, Some(960));
    assert_eq!(status.uptime_secs, None);
    assert_eq!(status.state, SubprocessState::Running);
}

#[test]
fn mean_latency_of_no_samples_is_absent() {
    let mut monitor = HealthMonitor::new(Duration::from_secs(30));
    monitor.record_failure_at("x", 1);
    let status = monitor.status_with(5, Duration::from_secs(0), Duration::from_secs(0));
    assert_eq!(status.avg_latency_ms, None);
    assert_eq!(status.last_success_time, None);
}

#[test]
fn last_success_time_saturates_at_zero() {
    let mut monitor = HealthMonitor::new(Duration::from_secs(30));
    monitor.record_success_at(Duration::from_millis(1), Instant::now(), 1);
    let status = monitor.status_with(5, Duration::from_secs(0), Duration::from_secs(9));
    assert_eq!(status.last_success_time, Some(0));
}

#[test]
fn uptime_is_marked_when_running_follows_starting() {
    let mut monitor = HealthMonitor::new(Duration::from_secs(30));
    assert!(monitor.uptime().is_none());
    monitor.set_state(SubprocessState::Running);
    assert!(monitor.uptime().is_none());
    monitor.set_state(SubprocessState::Starting);
    assert!(!monitor.is_healthy());
    monitor.set_state(SubprocessState::Running);
    assert!(monitor.uptime().is_some());
    let status = monitor.status_with(0, Duration::from_secs(61), Duration::from_secs(0));
    assert_eq!(status.uptime_secs, Some(61));
}

#[test]
fn entering_starting_clears_what_was_recorded() {
    let mut monitor = HealthMonitor::new(Duration::from_secs(30));
    monitor.mark_started();
    monitor.record_success(Duration::from_millis(5));
    monitor.record_failure("x");
    monitor.increment_respawn();
    monitor.set_state(SubprocessState::Starting);
    let status = monitor.status();
    assert_eq!(status.state, SubprocessState::Starting);
    assert_eq!(status.total_successes, 0);
    assert_eq!(status.total_failures, 0);
    assert_eq!(status.consecutive_failures, 0);
    assert_eq!(status.uptime_secs, None);
    assert_eq!(status.last_latency_ms, None);
    assert_eq!(status.respawn_attempts, 1);
    assert!(monitor.recent_results().is_empty());
}

#[test]
fn states_that_clear_the_healthy_flag() {
    for state in [
        SubprocessState::Degraded,
        SubprocessState::Crashed,
        SubprocessState::Killed,
        SubprocessState::ShuttingDown,
    ] {
        let mut monitor = HealthMonitor::new(Duration::from_secs(30));
        monitor.set_state(SubprocessState::Running);
        assert!(monitor.is_healthy());
        monitor.set_state(state);
        assert!(!monitor.is_healthy());
        assert_eq!(monitor.state(), state);
    }
    let mut monitor = HealthMonitor::new(Duration::from_secs(30));
    monitor.set_state(SubprocessState::Running);
    monitor.set_state(SubprocessState::Stopped);
    assert!(monitor.is_healthy());
}

#[test]
fn default_threshold_is_three() {
    let mut monitor = HealthMonitor::with_defaults();
    assert_eq!(monitor.check_interval(), Duration::from_secs(30));
    monitor.set_state(SubprocessState::Running);
    monitor.record_failure("1");
    monitor.record_failure("2");
    assert_eq!(monitor.state(), SubprocessState::Running);
    assert!(monitor.is_healthy());
    monitor.record_failure("3");
    assert_eq!(monitor.state(), SubprocessState::Degraded);
    assert!(!monitor.is_healthy());
    monitor.record_success(Duration::from_millis(1));
    assert_eq!(monitor.state(), SubprocessState::Running);
    assert!(monitor.is_healthy());
    assert_eq!(monitor.status().consecutive_failures, 0);
}

#[test]
fn mark_crashed_records_a_failure() {
    let mut monitor = HealthMonitor::new(Duration::from_secs(30));
    monitor.mark_started();
    monitor.mark_crashed("stdout closed");
    assert_eq!(monitor.state(), SubprocessState::Crashed);
    assert!(!monitor.is_healthy());
    let results = monitor.recent_results();
    assert_eq!(results.len(), 1);
    assert_eq!(results[0].error.as_deref(), Some("stdout closed"));
    assert_eq!(monitor.status().total_failures, 1);
}

#[test]
fn check_is_due_without_success_or_after_interval() {
    let mut monitor = HealthMonitor::new(Duration::from_secs(30));
    assert!(monitor.should_check());
    assert!(monitor.check_due(Duration::from_secs(0)));
    monitor.record_success(Duration::from_millis(1));
    assert!(!monitor.should_check());
    assert!(!monitor.check_due(Duration::from_millis(29_999)));
    assert!(monitor.check_due(Duration::from_secs(30)));
}

#[test]
fn respawn_limit_follows_the_configured_maximum() {
    let mut monitor = HealthMonitor::new(Duration::from_secs(30)).with_max_respawn_attempts(1);
    assert!(!monitor.respawn_limit_exceeded());
    assert_eq!(monitor.increment_respawn(), 1);
    assert!(monitor.respawn_limit_exceeded());
    let monitor = HealthMonitor::default().with_max_respawn_attempts(0);
    assert!(monitor.respawn_limit_exceeded());
}

#[test]
fn reset_keeps_state_and_respawn_counter() {
    let mut monitor = HealthMonitor::new(Duration::from_secs(30));
    monitor.mark_started();
    monitor.increment_respawn();
    monitor.record_success(Duration::from_millis(3));
    monitor.reset();
    assert_eq!(monitor.state(), SubprocessState::Running);
    assert!(!monitor.is_healthy());
    assert!(monitor.uptime().is_none());
    assert_eq!(monitor.status().respawn_attempts, 1);
    assert_eq!(monitor.status().total_successes, 0);
}

#[test]
fn timestamps_are_whole_seconds_since_the_epoch() {
    assert_eq!(timestamp_from(Ok(Duration::from_millis(5_999))), 5);
    assert_eq!(timestamp_from(Ok(Duration::from_secs(0))), 0);
    let before_epoch = SystemTime::UNIX_EPOCH.duration_since(SystemTime::now());
    assert!(before_epoch.is_err());
    assert_eq!(timestamp_from(before_epoch), 0);
    let sample = HealthCheckResult::success(Duration::from_millis(1));
    let now = SystemTime::now().duration_since(SystemTime::UNIX_EPOCH).unwrap().as_secs();
    assert!(sample.timestamp <= now && now - sample.timestamp <= 5);
}
