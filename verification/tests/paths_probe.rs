//! Tests of path derivation.

use arcbox_desktop::paths::{data_dir_for, docker_socket_for, get_paths, rpc_socket_for};

#[test]
fn data_dir_under_home() {
    assert_eq!(data_dir_for(Some("/home/u".to_string())), "/home/u/.arcbox");
}

#[test]
fn data_dir_without_home_falls_back_to_tmp() {
    assert_eq!(data_dir_for(None), "/tmp/.arcbox");
}

#[test]
fn socket_files_lie_in_the_data_dir() {
    let dir = data_dir_for(Some("/home/u".to_string()));
    assert_eq!(docker_socket_for(&dir), "/home/u/.arcbox/docker.sock");
    assert_eq!(rpc_socket_for(&dir), "/home/u/.arcbox/arcbox.sock");
}

#[test]
fn discovered_paths_cohere() {
    let (socket, data_dir) = get_paths();
    assert_eq!(socket, format!("{}/docker.sock", data_dir));
    assert!(data_dir.ends_with("/.arcbox"));
}
