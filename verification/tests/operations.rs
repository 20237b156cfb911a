//! Tests of the typed operations: guards, request defaults, completion
//! events, refresh-after-mutate, and error isolation.

use arcbox_desktop::daemon::{
    prepare_create_container, DaemonEvent, DaemonService, Dispatch, EntityLists,
};
use arcbox_desktop::models::{ContainerState, ContainerViewModel};

fn connected() -> DaemonService {
    let mut s = DaemonService::with_socket_path("/tmp/a.sock".to_string());
    let d = s.connect().unwrap();
    assert!(s.on_connect_result(d.generation, Ok(())));
    s
}

fn container(id: &str) -> ContainerViewModel {
    ContainerViewModel {
        id: id.to_string(),
        name: "web".to_string(),
        image: "nginx:latest".to_string(),
        state: ContainerState::Running,
        ports: vec![],
        created_at_secs: 0,
        compose_project: None,
    }
}

#[test]
fn listings_are_silent_when_disconnected() {
    let s = DaemonService::with_socket_path("/tmp/a.sock".to_string());
    assert!(s.list_machines().is_none());
    assert!(s.list_containers(true).is_none());
    assert!(s.list_images().is_none());
    assert!(s.list_networks().is_none());
    assert!(s.subscribe_logs("abc".to_string(), true, None).is_none());
}

#[test]
fn mutations_fail_fast_when_disconnected() {
    let s = DaemonService::with_socket_path("/tmp/a.sock".to_string());
    let r = s.start_container("abc".to_string());
    match r {
        Err(DaemonEvent::OperationFailed(msg)) => assert_eq!(msg, "Not connected to daemon"),
        other => panic!("expected OperationFailed, got {:?}", other),
    }
    assert!(matches!(
        s.stop_container("abc".to_string(), 10),
        Err(DaemonEvent::OperationFailed(_))
    ));
    assert!(matches!(
        s.remove_container("abc".to_string(), false),
        Err(DaemonEvent::OperationFailed(_))
    ));
    assert!(matches!(
        s.create_container("img".to_string(), None, None, None, None),
        Err(DaemonEvent::OperationFailed(_))
    ));
    assert!(matches!(
        s.create_network("net".to_string(), None),
        Err(DaemonEvent::OperationFailed(_))
    ));
    assert!(matches!(
        s.remove_network("n1".to_string()),
        Err(DaemonEvent::OperationFailed(_))
    ));
}

#[test]
fn list_containers_builds_the_exact_request() {
    let s = connected();
    match s.list_containers(true) {
        Some(Dispatch::ListContainers(p)) => {
            assert!(p.all);
            assert_eq!(p.limit, 0);
        }
        other => panic!("expected ListContainers, got {:?}", other),
    }
    match s.list_machines() {
        Some(Dispatch::ListMachines(p)) => assert!(p.all),
        other => panic!("expected ListMachines, got {:?}", other),
    }
}

#[test]
fn stop_container_builds_the_exact_request() {
    let s = connected();
    match s.stop_container("abc".to_string(), 10) {
        Ok(Dispatch::StopContainer(p)) => {
            assert_eq!(p.id, "abc");
            assert_eq!(p.timeout, 10);
        }
        other => panic!("expected StopContainer, got {:?}", other),
    }
}

#[test]
fn remove_container_never_removes_volumes() {
    let s = connected();
    match s.remove_container("abc".to_string(), true) {
        Ok(Dispatch::RemoveContainer(p)) => {
            assert_eq!(p.id, "abc");
            assert!(p.force);
            assert!(!p.remove_volumes);
        }
        other => panic!("expected RemoveContainer, got {:?}", other),
    }
}

#[test]
fn create_container_fills_empty_defaults() {
    let s = connected();
    match s.create_container("nginx:latest".to_string(), None, None, None, None) {
        Ok(Dispatch::CreateContainer(p)) => {
            assert_eq!(p.image, "nginx:latest");
            assert_eq!(p.name, "");
            assert!(p.cmd.is_empty());
            assert!(p.entrypoint.is_empty());
            assert_eq!(p.working_dir, "");
        }
        other => panic!("expected CreateContainer, got {:?}", other),
    }
}

#[test]
fn create_network_fills_empty_driver() {
    let s = connected();
    match s.create_network("mynet".to_string(), None) {
        Ok(Dispatch::CreateNetwork(p)) => {
            assert_eq!(p.name, "mynet");
            assert_eq!(p.driver, "");
            assert!(!p.internal);
        }
        other => panic!("expected CreateNetwork, got {:?}", other),
    }
}

#[test]
fn subscribe_logs_defaults_tail_to_100() {
    let s = connected();
    match s.subscribe_logs("abc".to_string(), true, None) {
        Some(Dispatch::SubscribeLogs(p)) => {
            assert_eq!(p.id, "abc");
            assert!(p.follow);
            assert!(p.stdout);
            assert!(p.stderr);
            assert!(p.timestamps);
            assert_eq!(p.since, 0);
            assert_eq!(p.until, 0);
            assert_eq!(p.tail, 100);
        }
        other => panic!("expected SubscribeLogs, got {:?}", other),
    }
    match s.subscribe_logs("abc".to_string(), false, Some(25)) {
        Some(Dispatch::SubscribeLogs(p)) => {
            assert!(!p.follow);
            assert_eq!(p.tail, 25);
        }
        other => panic!("expected SubscribeLogs, got {:?}", other),
    }
}

#[test]
fn form_with_empty_image_is_rejected() {
    assert!(prepare_create_container(
        "".to_string(),
        "web".to_string(),
        "echo hi".to_string(),
        "".to_string(),
        "".to_string(),
    )
    .is_none());
}

#[test]
fn form_fields_are_shaped_for_dispatch() {
    let f = prepare_create_container(
        "nginx:latest".to_string(),
        "".to_string(),
        "  echo   hello world ".to_string(),
        "/bin/sh -c".to_string(),
        "/srv".to_string(),
    )
    .expect("image given, so the form is accepted");
    assert_eq!(f.image, "nginx:latest");
    assert_eq!(f.name, None);
    assert_eq!(
        f.cmd,
        Some(vec![
            "echo".to_string(),
            "hello".to_string(),
            "world".to_string()
        ])
    );
    assert_eq!(
        f.entrypoint,
        Some(vec!["/bin/sh".to_string(), "-c".to_string()])
    );
    assert_eq!(f.working_dir, Some("/srv".to_string()));
}

#[test]
fn form_with_whitespace_only_command_keeps_no_words() {
    let f = prepare_create_container(
        "img".to_string(),
        "".to_string(),
        "   ".to_string(),
        "".to_string(),
        "".to_string(),
    )
    .unwrap();
    assert_eq!(f.cmd, Some(vec![]));
    assert_eq!(f.entrypoint, None);
}

#[test]
fn stopped_container_triggers_one_refresh() {
    let s = connected();
    let outcome = s.on_container_stopped("abc".to_string(), Ok(()));
    match outcome.event {
        DaemonEvent::ContainerStopped(id) => assert_eq!(id, "abc"),
        other => panic!("expected ContainerStopped, got {:?}", other),
    }
    match outcome.follow_up {
        Some(Dispatch::ListContainers(p)) => {
            assert!(p.all);
            assert_eq!(p.limit, 0);
        }
        other => panic!("expected a container refresh, got {:?}", other),
    }
}

#[test]
fn started_and_removed_containers_trigger_refreshes() {
    let s = connected();
    let started = s.on_container_started("c1".to_string(), Ok(()));
    assert!(matches!(started.event, DaemonEvent::ContainerStarted(_)));
    assert!(matches!(
        started.follow_up,
        Some(Dispatch::ListContainers(_))
    ));
    let removed = s.on_container_removed("c1".to_string(), Ok(()));
    assert!(matches!(removed.event, DaemonEvent::ContainerRemoved(_)));
    assert!(matches!(
        removed.follow_up,
        Some(Dispatch::ListContainers(_))
    ));
}

#[test]
fn created_container_chains_into_start() {
    let s = connected();
    let outcome = s.on_container_created(Ok("c9".to_string()), true);
    match outcome.event {
        DaemonEvent::ContainerCreated(id) => assert_eq!(id, "c9"),
        other => panic!("expected ContainerCreated, got {:?}", other),
    }
    match outcome.follow_up {
        Some(Dispatch::StartContainer(p)) => assert_eq!(p.id, "c9"),
        other => panic!("expected StartContainer, got {:?}", other),
    }
}

#[test]
fn created_container_without_start_refreshes() {
    let s = connected();
    let outcome = s.on_container_created(Ok("c9".to_string()), false);
    assert!(matches!(
        outcome.follow_up,
        Some(Dispatch::ListContainers(_))
    ));
}

#[test]
fn network_mutations_refresh_the_network_list() {
    let s = connected();
    let created = s.on_network_created(Ok("n1".to_string()));
    assert!(matches!(created.event, DaemonEvent::NetworkCreated(_)));
    assert!(matches!(created.follow_up, Some(Dispatch::ListNetworks)));
    let removed = s.on_network_removed("n1".to_string(), Ok(()));
    assert!(matches!(removed.event, DaemonEvent::NetworkRemoved(_)));
    assert!(matches!(removed.follow_up, Some(Dispatch::ListNetworks)));
}

#[test]
fn failed_mutation_emits_failure_and_no_refresh() {
    let s = connected();
    let outcome = s.on_container_started("abc".to_string(), Err("no such container".to_string()));
    match outcome.event {
        DaemonEvent::OperationFailed(msg) => {
            assert_eq!(msg, "Failed to start container: no such container")
        }
        other => panic!("expected OperationFailed, got {:?}", other),
    }
    assert!(outcome.follow_up.is_none());
}

#[test]
fn failed_mutation_leaves_loaded_lists_unchanged() {
    let s = connected();
    let mut lists = EntityLists::new();
    let loaded = s.on_containers_loaded(Ok(vec![container("c1"), container("c2")]));
    assert!(lists.apply_event(loaded).is_none());
    assert_eq!(lists.containers.len(), 2);

    let failed = s.on_container_stopped("c1".to_string(), Err("boom".to_string()));
    let handed_back = lists.apply_event(failed.event);
    match handed_back {
        Some(DaemonEvent::OperationFailed(msg)) => {
            assert_eq!(msg, "Failed to stop container: boom")
        }
        other => panic!("expected the failure handed back, got {:?}", other),
    }
    assert_eq!(lists.containers.len(), 2);
    assert_eq!(lists.containers[0].id, "c1");
    assert_eq!(lists.containers[1].id, "c2");
    assert!(lists.machines.is_empty());
    assert!(lists.images.is_empty());
    assert!(lists.networks.is_empty());
}

#[test]
fn failed_listing_emits_failure() {
    let s = connected();
    match s.on_containers_loaded(Err("transport broken".to_string())) {
        DaemonEvent::OperationFailed(msg) => {
            assert_eq!(msg, "Failed to list containers: transport broken")
        }
        other => panic!("expected OperationFailed, got {:?}", other),
    }
    match s.on_machines_loaded(Err("x".to_string())) {
        DaemonEvent::OperationFailed(msg) => assert_eq!(msg, "Failed to list machines: x"),
        other => panic!("expected OperationFailed, got {:?}", other),
    }
    match s.on_images_loaded(Err("x".to_string())) {
        DaemonEvent::OperationFailed(msg) => assert_eq!(msg, "Failed to list images: x"),
        other => panic!("expected OperationFailed, got {:?}", other),
    }
    match s.on_networks_loaded(Err("x".to_string())) {
        DaemonEvent::OperationFailed(msg) => assert_eq!(msg, "Failed to list networks: x"),
        other => panic!("expected OperationFailed, got {:?}", other),
    }
}

#[test]
fn loaded_lists_replace_only_their_kind() {
    let s = connected();
    let mut lists = EntityLists::new();
    let ev = s.on_containers_loaded(Ok(vec![container("c1")]));
    assert!(lists.apply_event(ev).is_none());
    let ev2 = s.on_containers_loaded(Ok(vec![container("c2"), container("c3")]));
    assert!(lists.apply_event(ev2).is_none());
    assert_eq!(lists.containers.len(), 2);
    assert_eq!(lists.containers[0].id, "c2");
    assert!(lists.machines.is_empty());
}
