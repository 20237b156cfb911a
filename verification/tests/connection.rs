//! Tests of the connection state machine.

use arcbox_desktop::daemon::{ConnectionState, DaemonService};

#[test]
fn default_service_uses_the_user_data_dir() {
    let s = DaemonService::new();
    assert_eq!(*s.state(), ConnectionState::Disconnected);
    let d = {
        let mut s = s;
        s.connect().unwrap()
    };
    assert!(d.socket_path.ends_with("/.arcbox/arcbox.sock"));
}

#[test]
fn fresh_service_is_disconnected() {
    let s = DaemonService::with_socket_path("/tmp/a.sock".to_string());
    assert_eq!(*s.state(), ConnectionState::Disconnected);
    assert!(!s.is_connected());
}

#[test]
fn connect_yields_a_dial_directive() {
    let mut s = DaemonService::with_socket_path("/tmp/a.sock".to_string());
    let d = s.connect().expect("expected a directive");
    assert_eq!(d.generation, 1);
    assert_eq!(d.socket_path, "/tmp/a.sock");
    assert_eq!(*s.state(), ConnectionState::Connecting);
}

#[test]
fn connect_is_noop_while_connecting() {
    let mut s = DaemonService::with_socket_path("/tmp/a.sock".to_string());
    let _ = s.connect();
    assert!(s.connect().is_none());
    assert_eq!(*s.state(), ConnectionState::Connecting);
}

#[test]
fn connect_is_noop_while_connected() {
    let mut s = DaemonService::with_socket_path("/tmp/a.sock".to_string());
    let d = s.connect().unwrap();
    assert!(s.on_connect_result(d.generation, Ok(())));
    assert!(s.is_connected());
    assert!(s.connect().is_none());
    assert!(s.is_connected());
}

#[test]
fn dial_failure_sets_error_state() {
    let mut s = DaemonService::with_socket_path("/tmp/a.sock".to_string());
    let d = s.connect().unwrap();
    assert!(s.on_connect_result(
        d.generation,
        Err("Cannot connect to socket: /tmp/a.sock".to_string())
    ));
    assert_eq!(
        *s.state(),
        ConnectionState::Error("Cannot connect to socket: /tmp/a.sock".to_string())
    );
    assert!(!s.is_connected());
}

#[test]
fn connect_again_after_error_is_allowed() {
    let mut s = DaemonService::with_socket_path("/tmp/a.sock".to_string());
    let d = s.connect().unwrap();
    let _ = s.on_connect_result(d.generation, Err("boom".to_string()));
    let d2 = s.connect().expect("expected a directive after error");
    assert_eq!(d2.generation, 2);
    assert_eq!(*s.state(), ConnectionState::Connecting);
}

#[test]
fn stale_dial_result_is_dropped_after_disconnect() {
    let mut s = DaemonService::with_socket_path("/tmp/a.sock".to_string());
    let d = s.connect().unwrap();
    s.disconnect();
    assert!(!s.on_connect_result(d.generation, Ok(())));
    assert_eq!(*s.state(), ConnectionState::Disconnected);
}

#[test]
fn stale_dial_result_is_dropped_after_reconnect() {
    let mut s = DaemonService::with_socket_path("/tmp/a.sock".to_string());
    let d1 = s.connect().unwrap();
    s.disconnect();
    let d2 = s.connect().unwrap();
    assert_ne!(d1.generation, d2.generation);
    // The abandoned dial resolves late: dropped, no duplicate channel.
    assert!(!s.on_connect_result(d1.generation, Ok(())));
    assert_eq!(*s.state(), ConnectionState::Connecting);
    // The current dial resolves: applied.
    assert!(s.on_connect_result(d2.generation, Ok(())));
    assert!(s.is_connected());
}

#[test]
fn disconnect_resets_synchronously() {
    let mut s = DaemonService::with_socket_path("/tmp/a.sock".to_string());
    let d = s.connect().unwrap();
    let _ = s.on_connect_result(d.generation, Ok(()));
    s.disconnect();
    assert_eq!(*s.state(), ConnectionState::Disconnected);
    assert!(!s.is_connected());
}

#[test]
fn socket_path_can_be_replaced_before_connect() {
    let mut s = DaemonService::with_socket_path("/tmp/a.sock".to_string());
    s.set_socket_path("/tmp/b.sock".to_string());
    let d = s.connect().unwrap();
    assert_eq!(d.socket_path, "/tmp/b.sock");
}
