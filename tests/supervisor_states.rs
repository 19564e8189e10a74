use docker_monitor::status::{DockerError, DockerStatus, DockerVersion};
use docker_monitor::supervisor::{
    retry_delay, DockerState, MonitoringConfig, BACKOFF_BASE_MS, FAST_RETRY_DELAY_MS,
};

fn engine() -> DockerVersion {
    DockerVersion {
        version: "28.3.2".to_string(),
        api_version: "1.51".to_string(),
        os: "linux".to_string(),
        arch: "amd64".to_string(),
    }
}

fn now() -> String {
    "2025-07-01T12:00:00+00:00".to_string()
}

fn healthy_and_error_agree(s: &DockerStatus) -> bool {
    s.is_running == s.error.is_none()
}

#[test]
fn starts_initializing() {
    let st = DockerState::new();
    assert!(!st.status.is_running);
    assert_eq!(st.status.error.as_deref(), Some("Initializing..."));
    assert!(st.needs_connection());
    assert_eq!(st.retry_count, 0);
    assert_eq!(st.status.engine_update_available, None);
    assert_eq!(st.status.desktop_update_available, None);
    assert_eq!(st.status.last_checked, None);
    assert_eq!(st.last_update_check_ms, None);
    assert_eq!(st.config, MonitoringConfig::default());
    assert_eq!(st.config.max_retries, 3);
    assert_eq!(st.config.health_check_interval_ms, 30000);
    assert!(healthy_and_error_agree(&st.status));
}

#[test]
fn unreachable_daemon_at_startup() {
    let mut st = DockerState::new();
    st.on_connect_failed(&DockerError::NotRunning, now());
    let s = st.get_status();
    assert!(!s.is_running);
    assert_eq!(s.error.as_deref(), Some("Docker is not running"));
    assert!(s.engine_version.is_none());
    assert!(s.container_count.is_none());
    assert_eq!(s.last_checked, Some(now()));
    assert!(healthy_and_error_agree(&s));
}

#[test]
fn daemon_becomes_reachable() {
    let mut st = DockerState::new();
    st.on_connect_failed(&DockerError::NotRunning, now());
    st.on_connected(engine(), Some("4.42.1".to_string()), Some(3), now());
    let s = st.get_status();
    assert!(s.is_running);
    assert!(s.error.is_none());
    assert_eq!(s.engine_version, Some(engine()));
    assert_eq!(s.desktop_version.as_deref(), Some("4.42.1"));
    assert!(s.container_count.unwrap() >= 0);
    assert!(!st.needs_connection());
    assert_eq!(st.retry_count, 0);
    assert!(healthy_and_error_agree(&s));
}

#[test]
fn daemon_killed_mid_session() {
    let mut st = DockerState::new();
    st.on_connected(engine(), Some("4.42.1".to_string()), Some(3), now());
    st.on_connect_update_results(Some(true), None);
    assert!(st.on_event_stream_lost(now()));
    let s = st.get_status();
    assert!(!s.is_running);
    assert_eq!(s.error.as_deref(), Some("Connection lost, attempting to reconnect..."));
    assert_eq!(s.engine_version, Some(engine()));
    assert_eq!(s.desktop_version.as_deref(), Some("4.42.1"));
    assert_eq!(s.container_count, None);
    assert!(st.needs_connection());
    assert!(healthy_and_error_agree(&s));
}

#[test]
fn stream_loss_while_down_changes_nothing() {
    let mut st = DockerState::new();
    st.on_connect_failed(&DockerError::Timeout, now());
    let before = st.get_status();
    assert!(!st.on_event_stream_lost(now()));
    assert_eq!(st.get_status(), before);
}

#[test]
fn backoff_then_fast_retry() {
    let mut st = DockerState::new();
    assert_eq!(st.on_connect_failed(&DockerError::NotRunning, now()), 1000);
    assert_eq!(st.on_connect_failed(&DockerError::NotRunning, now()), 2000);
    assert_eq!(st.on_connect_failed(&DockerError::NotRunning, now()), FAST_RETRY_DELAY_MS);
    assert_eq!(st.on_connect_failed(&DockerError::NotRunning, now()), FAST_RETRY_DELAY_MS);
    assert_eq!(st.retry_count, 4);
}

#[test]
fn backoff_restarts_after_connect() {
    let mut st = DockerState::new();
    for _ in 0..5 {
        st.on_connect_failed(&DockerError::StartingUp, now());
    }
    st.on_connected(engine(), None, Some(0), now());
    assert_eq!(st.retry_count, 0);
    assert_eq!(st.on_connect_failed(&DockerError::Restarting, now()), 2 * BACKOFF_BASE_MS);
}

#[test]
fn retry_counter_saturates() {
    let mut st = DockerState::new();
    st.retry_count = u32::MAX;
    assert_eq!(st.on_connect_failed(&DockerError::NotRunning, now()), FAST_RETRY_DELAY_MS);
    assert_eq!(st.retry_count, u32::MAX);
}

#[test]
fn retry_delay_table() {
    assert_eq!(retry_delay(0, 10), 500);
    assert_eq!(retry_delay(1, 10), 1000);
    assert_eq!(retry_delay(2, 10), 2000);
    assert_eq!(retry_delay(3, 10), 4000);
    assert_eq!(retry_delay(4, 10), 4000);
    assert_eq!(retry_delay(9, 10), 4000);
    assert_eq!(retry_delay(10, 10), 500);
    assert_eq!(retry_delay(0, 0), 500);
}

#[test]
fn connection_failure_hides_detail() {
    let mut st = DockerState::new();
    st.on_connected(engine(), Some("4.42.1".to_string()), Some(1), now());
    st.on_connect_failed(&DockerError::ConnectionFailed("socket missing".to_string()), now());
    let s = st.get_status();
    assert_eq!(s.error.as_deref(), Some("Docker connection failed"));
    assert!(s.engine_version.is_none());
    assert!(s.desktop_version.is_none());
    assert!(s.engine_update_available.is_none());
}

#[test]
fn error_texts() {
    assert_eq!(DockerError::NotRunning.message(), "Docker is not running");
    assert_eq!(DockerError::StartingUp.message(), "Docker is starting up");
    assert_eq!(DockerError::Timeout.message(), "Docker connection timeout");
    assert_eq!(DockerError::ConnectionLost.message(), "Docker connection lost");
    assert_eq!(DockerError::Restarting.message(), "Docker is restarting");
    let f = DockerError::ConnectionFailed("x".to_string());
    assert_eq!(f.message(), "Failed to connect to Docker: x");
    assert_eq!(f.summary(), "Docker connection failed");
    assert_eq!(DockerError::Restarting.summary(), "Docker is restarting");
}

#[test]
fn health_ok_heals_any_state() {
    let mut st = DockerState::new();
    st.on_connect_failed(&DockerError::NotRunning, now());
    st.on_health_ok(Some(7), now());
    let s = st.get_status();
    assert!(s.is_running);
    assert!(s.error.is_none());
    assert_eq!(s.container_count, Some(7));
}

#[test]
fn health_failure_marks_down_once() {
    let mut st = DockerState::new();
    st.on_connected(engine(), None, Some(2), now());
    assert_eq!(st.health_check_ready(), Ok(()));
    assert_eq!(st.on_health_failed(false, now()), DockerError::ConnectionLost);
    let s = st.get_status();
    assert!(!s.is_running);
    assert_eq!(s.error.as_deref(), Some("Docker is not responding"));
    assert_eq!(s.container_count, None);
    assert_eq!(s.engine_version, Some(engine()));
    assert_eq!(st.health_check_ready(), Err(DockerError::ConnectionLost));
    assert_eq!(st.on_health_failed(true, now()), DockerError::Timeout);
    assert_eq!(st.get_status(), s);
}

#[test]
fn health_timeout_text() {
    let mut st = DockerState::new();
    st.on_connected(engine(), None, None, now());
    assert_eq!(st.on_health_failed(true, now()), DockerError::Timeout);
    assert_eq!(st.get_status().error.as_deref(), Some("Docker connection timeout"));
}

#[test]
fn update_check_schedule() {
    let mut st = DockerState::new();
    assert!(st.update_check_due(0));
    st.on_update_check_done(Some(true), None, now(), 1000);
    assert_eq!(st.status.engine_update_available, Some(true));
    assert_eq!(st.status.desktop_update_available, None);
    assert!(st.status.last_checked.is_some());
    assert!(!st.update_check_due(1000 + 3_599_999));
    assert!(st.update_check_due(1000 + 3_600_000));
    assert!(!st.update_check_due(10));
}

#[test]
fn update_targets_and_merge() {
    let mut st = DockerState::new();
    assert_eq!(st.update_check_targets(), (None, None));
    st.on_connected(engine(), Some("4.42.0".to_string()), None, now());
    assert_eq!(
        st.update_check_targets(),
        (Some("28.3.2".to_string()), Some("4.42.0".to_string()))
    );
    st.on_connect_update_results(None, Some(true));
    assert_eq!(st.status.engine_update_available, None);
    assert_eq!(st.status.desktop_update_available, Some(true));
    st.on_connect_update_results(Some(false), None);
    assert_eq!(st.status.engine_update_available, Some(false));
    assert_eq!(st.status.desktop_update_available, Some(true));
}

#[test]
fn engine_version_lookup() {
    let mut st = DockerState::new();
    assert_eq!(st.engine_version(), Err("Docker version not available".to_string()));
    st.on_connected(engine(), None, None, now());
    assert_eq!(st.engine_version(), Ok(engine()));
}

#[test]
fn snapshot_copy_is_equal() {
    let s = DockerStatus::connected(engine(), None, Some(1), "t".to_string());
    assert_eq!(s.snapshot(), s);
    assert_eq!(s.last_checked.as_deref(), Some("t"));
    let i = DockerStatus::initializing();
    assert_eq!(i.snapshot(), i);
}

#[test]
fn health_failure_clears_update_verdicts() {
    let mut st = DockerState::new();
    st.on_connected(engine(), Some("4.42.0".to_string()), Some(2), now());
    st.on_connect_update_results(Some(true), Some(false));
    st.on_health_failed(false, "later".to_string());
    let s = st.get_status();
    assert_eq!(s.engine_update_available, None);
    assert_eq!(s.desktop_update_available, None);
    assert_eq!(s.engine_version, Some(engine()));
    assert_eq!(s.last_checked.as_deref(), Some("later"));
}

#[test]
fn reported_version_facts() {
    let v = DockerVersion::from_reported(Some("28.3.2".to_string()), None, Some("linux".to_string()), None);
    assert_eq!(v.version, "28.3.2");
    assert_eq!(v.api_version, "Unknown");
    assert_eq!(v.os, "linux");
    assert_eq!(v.arch, "Unknown");
}
