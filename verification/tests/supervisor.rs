//! Lifecycle tests of the daemon manager state machine.

use arcbox_desktop::daemon_manager::{
    DaemonManager, DaemonManagerEvent, DaemonState, StartDirective,
};
use arcbox_desktop::startup::StartupOutcome;

fn manager_with_binary() -> DaemonManager {
    DaemonManager::new(
        Some("/usr/local/bin/arcbox".to_string()),
        "/home/u/.arcbox/docker.sock".to_string(),
        "/home/u/.arcbox".to_string(),
    )
}

#[test]
fn new_manager_is_stopped() {
    let m = manager_with_binary();
    assert_eq!(*m.state(), DaemonState::Stopped);
    assert!(!m.is_running());
    assert!(!m.has_child());
    assert_eq!(m.generation(), 0);
}

#[test]
fn start_from_stopped_launches() {
    let mut m = manager_with_binary();
    let (directive, event) = m.start();
    match directive {
        StartDirective::Launch {
            generation,
            daemon_path,
            socket_path,
            data_dir,
        } => {
            assert_eq!(generation, 1);
            assert_eq!(daemon_path, "/usr/local/bin/arcbox");
            assert_eq!(socket_path, "/home/u/.arcbox/docker.sock");
            assert_eq!(data_dir, "/home/u/.arcbox");
        }
        other => panic!("expected Launch, got {:?}", other),
    }
    assert_eq!(*m.state(), DaemonState::Starting);
    match event {
        Some(DaemonManagerEvent::StateChanged(s)) => assert_eq!(s, DaemonState::Starting),
        None => panic!("expected a state-change event"),
    }
}

#[test]
fn start_is_noop_while_starting() {
    let mut m = manager_with_binary();
    let _ = m.start();
    let gen_before = m.generation();
    let (directive, event) = m.start();
    assert!(matches!(directive, StartDirective::AlreadyActive));
    assert!(event.is_none());
    assert_eq!(*m.state(), DaemonState::Starting);
    assert_eq!(m.generation(), gen_before);
}

#[test]
fn start_is_noop_while_running() {
    let mut m = manager_with_binary();
    let (d, _) = m.start();
    let gen = match d {
        StartDirective::Launch { generation, .. } => generation,
        _ => panic!("expected Launch"),
    };
    let applied = m.on_startup_result(gen, StartupOutcome::Spawned);
    assert!(applied.applied);
    assert!(m.is_running());
    let (directive, event) = m.start();
    assert!(matches!(directive, StartDirective::AlreadyActive));
    assert!(event.is_none());
    assert!(m.is_running());
}

#[test]
fn start_without_binary_fails_without_launching() {
    let mut m = DaemonManager::new(None, "/tmp/s.sock".to_string(), "/tmp/d".to_string());
    let (directive, event) = m.start();
    assert!(matches!(directive, StartDirective::NoBinary));
    assert_eq!(
        *m.state(),
        DaemonState::Failed("Daemon binary not found".to_string())
    );
    match event {
        Some(DaemonManagerEvent::StateChanged(DaemonState::Failed(msg))) => {
            assert_eq!(msg, "Daemon binary not found")
        }
        other => panic!("expected failure event, got {:?}", other),
    }
}

#[test]
fn start_again_after_failure_is_allowed() {
    let mut m = DaemonManager::new(None, "/tmp/s.sock".to_string(), "/tmp/d".to_string());
    let _ = m.start();
    assert!(matches!(*m.state(), DaemonState::Failed(_)));
    // A repeated failing start changes nothing and emits no event:
    // the state is already this failure.
    let (directive, event) = m.start();
    assert!(matches!(directive, StartDirective::NoBinary));
    assert!(event.is_none());
}

#[test]
fn already_running_outcome_keeps_no_child() {
    let mut m = manager_with_binary();
    let (d, _) = m.start();
    let gen = match d {
        StartDirective::Launch { generation, .. } => generation,
        _ => panic!("expected Launch"),
    };
    let applied = m.on_startup_result(gen, StartupOutcome::AlreadyRunning);
    assert!(applied.applied);
    assert!(m.is_running());
    assert!(!m.has_child());
    match applied.event {
        Some(DaemonManagerEvent::StateChanged(s)) => assert_eq!(s, DaemonState::Running),
        None => panic!("expected a state-change event"),
    }
}

#[test]
fn spawned_outcome_retains_child() {
    let mut m = manager_with_binary();
    let (d, _) = m.start();
    let gen = match d {
        StartDirective::Launch { generation, .. } => generation,
        _ => panic!("expected Launch"),
    };
    let applied = m.on_startup_result(gen, StartupOutcome::Spawned);
    assert!(applied.applied);
    assert!(m.is_running());
    assert!(m.has_child());
}

#[test]
fn failed_outcome_carries_reason() {
    let mut m = manager_with_binary();
    let (d, _) = m.start();
    let gen = match d {
        StartDirective::Launch { generation, .. } => generation,
        _ => panic!("expected Launch"),
    };
    let applied = m.on_startup_result(
        gen,
        StartupOutcome::Failed("Daemon startup timeout".to_string()),
    );
    assert!(applied.applied);
    assert_eq!(
        *m.state(),
        DaemonState::Failed("Daemon startup timeout".to_string())
    );
    assert!(!m.has_child());
}

#[test]
fn stale_startup_result_after_stop_is_dropped() {
    let mut m = manager_with_binary();
    let (d, _) = m.start();
    let gen = match d {
        StartDirective::Launch { generation, .. } => generation,
        _ => panic!("expected Launch"),
    };
    let _ = m.stop();
    assert_eq!(*m.state(), DaemonState::Stopped);
    let applied = m.on_startup_result(gen, StartupOutcome::Spawned);
    assert!(!applied.applied);
    assert!(applied.event.is_none());
    assert_eq!(*m.state(), DaemonState::Stopped);
    assert!(!m.has_child());
}

#[test]
fn stale_generation_is_dropped_after_restart() {
    let mut m = manager_with_binary();
    let (d1, _) = m.start();
    let gen1 = match d1 {
        StartDirective::Launch { generation, .. } => generation,
        _ => panic!("expected Launch"),
    };
    let _ = m.stop();
    let (d2, _) = m.start();
    let gen2 = match d2 {
        StartDirective::Launch { generation, .. } => generation,
        _ => panic!("expected Launch"),
    };
    assert_ne!(gen1, gen2);
    // The abandoned first sequence resolves late: dropped.
    let stale = m.on_startup_result(gen1, StartupOutcome::Spawned);
    assert!(!stale.applied);
    assert_eq!(*m.state(), DaemonState::Starting);
    // The current sequence resolves: applied.
    let fresh = m.on_startup_result(gen2, StartupOutcome::Spawned);
    assert!(fresh.applied);
    assert!(m.is_running());
}

#[test]
fn stop_emits_once() {
    let mut m = manager_with_binary();
    let _ = m.start();
    let ev = m.stop();
    assert!(matches!(
        ev,
        Some(DaemonManagerEvent::StateChanged(DaemonState::Stopped))
    ));
    let ev2 = m.stop();
    assert!(ev2.is_none());
}

#[test]
fn grpc_socket_path_lies_in_data_dir() {
    let m = manager_with_binary();
    assert_eq!(m.grpc_socket_path(), "/home/u/.arcbox/arcbox.sock");
    assert_eq!(*m.socket_path(), "/home/u/.arcbox/docker.sock");
}
