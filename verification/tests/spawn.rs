use plugin_ipc::ipc::spawn::{
    check_pipes, kill_failure, spawn_failure, ProcessState, ShutdownStep, SubprocessConfig,
    SubprocessHandle,
};
use plugin_ipc::ipc::IpcError;
use std::path::PathBuf;
use std::time::Duration;

#[test]
fn test_subprocess_config_default() {
    let config = SubprocessConfig::default();

    assert_eq!(config.python_path, "python");
    assert_eq!(config.module_name, "plugins._host");
    assert!(config.working_dir.is_none());
    assert!(config.env_vars.is_empty());
}

#[test]
fn test_subprocess_config_builder() {
    let config = SubprocessConfig::new()
        .with_python_path("python3.11")
        .with_module("my.module")
        .with_working_dir(PathBuf::from("/tmp"))
        .with_env("DEBUG", "1")
        .with_shutdown_timeout(30)
        .with_max_respawn_attempts(5)
        .with_respawn_delay(2000);

    assert_eq!(config.python_path, "python3.11");
    assert_eq!(config.module_name, "my.module");
    assert_eq!(config.working_dir, Some(PathBuf::from("/tmp")));
    assert_eq!(config.env_vars.len(), 1);
    assert_eq!(config.env_vars[0], ("DEBUG".to_string(), "1".to_string()));
    assert_eq!(config.shutdown_timeout_secs, 30);
    assert_eq!(config.max_respawn_attempts, 5);
    assert_eq!(config.respawn_delay_ms, 2000);
}

#[test]
fn test_subprocess_config_multiple_envs() {
    let config = SubprocessConfig::new()
        .with_env("A", "1")
        .with_env("B", "2")
        .with_envs(&[("C", "3"), ("D", "4")]);

    assert_eq!(config.env_vars.len(), 4);
}

#[test]
fn test_build_args() {
    let config = SubprocessConfig::new().with_module("test.module");

    let args = config.build_args();

    assert_eq!(args, vec!["-m", "test.module"]);
}

#[test]
fn test_process_state_display() {
    assert_eq!(ProcessState::NotStarted.name(), "NOT_STARTED");
    assert_eq!(ProcessState::Running.name(), "RUNNING");
    assert_eq!(ProcessState::Stopped.name(), "STOPPED");
    assert_eq!(ProcessState::Crashed.name(), "CRASHED");
    assert_eq!(ProcessState::Killed.name(), "KILLED");
}

#[test]
fn test_process_state_equality() {
    assert_eq!(ProcessState::Running, ProcessState::Running);
    assert_ne!(ProcessState::Running, ProcessState::Stopped);
}

#[test]
fn defaults_of_the_spawn_configuration() {
    let config = SubprocessConfig::new();
    assert_eq!(config.shutdown_timeout_secs, 60);
    assert_eq!(config.max_respawn_attempts, 3);
    assert_eq!(config.respawn_delay_ms, 1000);
    assert!(!config.verbose);
    assert!(config.with_verbose(true).verbose);
}

#[test]
fn environment_starts_with_the_unbuffered_variable() {
    let config = SubprocessConfig::new().with_env("A", "1").with_envs(&[("B", "2")]);
    let env = config.build_env();
    assert_eq!(
        env,
        vec![
            ("PYTHONUNBUFFERED".to_string(), "1".to_string()),
            ("A".to_string(), "1".to_string()),
            ("B".to_string(), "2".to_string()),
        ]
    );
    assert_eq!(
        SubprocessConfig::new().build_env(),
        vec![("PYTHONUNBUFFERED".to_string(), "1".to_string())]
    );
}

#[test]
fn backoff_doubles_and_is_capped() {
    let config = SubprocessConfig::new().with_max_respawn_attempts(10);
    let delays: Vec<u64> = (1..=8).map(|a| config.respawn_delay(a).unwrap()).collect();
    assert_eq!(delays, vec![1000, 2000, 4000, 8000, 16000, 32000, 32000, 32000]);
}

#[test]
fn backoff_gives_up_beyond_the_maximum() {
    let config = SubprocessConfig::new();
    assert_eq!(config.respawn_delay(3).unwrap(), 4000);
    match config.respawn_delay(4) {
        Err(IpcError::RespawnFailed(3)) => {}
        other => panic!("unexpected: {:?}", other),
    }
}

#[test]
fn missing_pipes_are_spawn_failures() {
    assert!(check_pipes(true, true, true).is_ok());
    for (pipes, text) in [
        ((false, false, false), "Failed to get stdin handle"),
        ((true, false, false), "Failed to get stdout handle"),
        ((true, true, false), "Failed to get stderr handle"),
    ] {
        match check_pipes(pipes.0, pipes.1, pipes.2) {
            Err(IpcError::SpawnError(m)) => assert_eq!(m, text),
            other => panic!("unexpected: {:?}", other),
        }
    }
}

#[test]
fn os_failures_carry_the_message() {
    match spawn_failure("No such file or directory") {
        IpcError::SpawnError(m) => {
            assert_eq!(m, "Failed to spawn subprocess: No such file or directory")
        }
        other => panic!("unexpected: {:?}", other),
    }
    match kill_failure("gone") {
        IpcError::IoError(m) => assert_eq!(m, "Failed to kill subprocess: gone"),
        other => panic!("unexpected: {:?}", other),
    }
}

fn handle() -> SubprocessHandle<&'static str, &'static str, &'static str> {
    SubprocessHandle::spawned("in", "out", "err", 4242, SubprocessConfig::new())
}

#[test]
fn pipes_are_taken_once() {
    let mut h = handle();
    assert_eq!(h.pid(), 4242);
    assert_eq!(h.state(), ProcessState::Running);
    assert!(h.is_running());
    assert!(!h.is_shutting_down());
    assert!(h.has_stdin());
    assert_eq!(h.take_stdin(), Some("in"));
    assert_eq!(h.take_stdin(), None);
    assert!(!h.has_stdin());
    assert_eq!(h.take_stdout(), Some("out"));
    assert_eq!(h.take_stdout(), None);
    assert_eq!(h.take_stderr(), Some("err"));
    assert_eq!(h.take_stderr(), None);
    assert_eq!(h.config().python_path, "python");
    assert!(h.uptime() < Duration::from_secs(60));
}

#[test]
fn graceful_exit_ends_as_stopped() {
    let mut h = handle();
    assert_eq!(h.begin_shutdown(), ShutdownStep::Request);
    assert!(h.is_shutting_down());
    let deadline = Duration::from_secs(1);
    assert_eq!(h.after_poll(None, Duration::from_millis(0), deadline), ShutdownStep::Wait);
    assert_eq!(h.after_poll(None, Duration::from_millis(999), deadline), ShutdownStep::Wait);
    assert_eq!(h.after_poll(Some(true), Duration::from_millis(400), deadline), ShutdownStep::Done);
    assert_eq!(h.state(), ProcessState::Stopped);
    assert!(!h.needs_kill());
    assert_eq!(h.begin_shutdown(), ShutdownStep::Done);
}

#[test]
fn deadline_leads_to_kill() {
    let mut h = handle();
    assert_eq!(h.begin_shutdown(), ShutdownStep::Request);
    let deadline = Duration::from_secs(1);
    assert_eq!(h.after_poll(None, Duration::from_secs(1), deadline), ShutdownStep::Kill);
    assert_eq!(h.state(), ProcessState::Running);
    assert!(h.needs_kill());
    h.note_killed();
    assert_eq!(h.state(), ProcessState::Killed);
    assert!(!h.needs_kill());
}

#[test]
fn failing_exit_ends_as_crashed() {
    let mut h = handle();
    h.note_exit(false);
    assert_eq!(h.state(), ProcessState::Crashed);
    let mut h = handle();
    assert_eq!(
        h.after_poll(Some(false), Duration::from_secs(0), Duration::from_secs(1)),
        ShutdownStep::Done
    );
    assert_eq!(h.state(), ProcessState::Crashed);
}
