//! Tests of the view models' display helpers.

use arcbox_desktop::models::{
    calculate_image_stats, ContainerState, ContainerViewModel, DistroInfo, ImageViewModel,
    MachineState, MachineViewModel, NetworkViewModel, PortMapping, VolumeViewModel,
};

fn image(repo: &str, tag: &str, size: u64, in_use: bool) -> ImageViewModel {
    ImageViewModel {
        id: format!("sha256:{}", repo),
        repository: repo.to_string(),
        tag: tag.to_string(),
        size_bytes: size,
        created_at_secs: 0,
        in_use,
    }
}

fn network(name: &str, count: usize) -> NetworkViewModel {
    NetworkViewModel {
        id: "0123456789abcdef".to_string(),
        name: name.to_string(),
        driver: "bridge".to_string(),
        scope: "local".to_string(),
        created_at_secs: 0,
        internal: false,
        attachable: true,
        container_count: count,
    }
}

#[test]
fn container_state_labels() {
    assert_eq!(ContainerState::Running.label(), "Running");
    assert_eq!(ContainerState::Stopped.label(), "Stopped");
    assert_eq!(ContainerState::Restarting.label(), "Restarting");
    assert_eq!(ContainerState::Paused.label(), "Paused");
    assert_eq!(ContainerState::Dead.label(), "Dead");
    assert!(ContainerState::Running.is_running());
    assert!(!ContainerState::Paused.is_running());
}

#[test]
fn machine_state_labels() {
    assert_eq!(MachineState::Running.label(), "Running");
    assert_eq!(MachineState::Stopped.label(), "Stopped");
    assert_eq!(MachineState::Starting.label(), "Starting");
    assert_eq!(MachineState::Stopping.label(), "Stopping");
    assert!(MachineState::Running.is_running());
    assert!(!MachineState::Stopping.is_running());
}

#[test]
fn ports_display_joins_pairs() {
    let mut c = ContainerViewModel {
        id: "c1".to_string(),
        name: "web".to_string(),
        image: "nginx:latest".to_string(),
        state: ContainerState::Running,
        ports: vec![],
        created_at_secs: 0,
        compose_project: None,
    };
    assert_eq!(c.ports_display(), "-");
    c.ports = vec![
        PortMapping {
            host_port: 8080,
            container_port: 80,
            protocol: "tcp".to_string(),
        },
        PortMapping {
            host_port: 443,
            container_port: 443,
            protocol: "tcp".to_string(),
        },
    ];
    assert_eq!(c.ports_display(), "8080:80, 443:443");
    assert!(c.is_running());
}

#[test]
fn short_ages() {
    let c = ContainerViewModel {
        id: "c1".to_string(),
        name: "web".to_string(),
        image: "nginx:latest".to_string(),
        state: ContainerState::Stopped,
        ports: vec![],
        created_at_secs: 1_000_000,
        compose_project: None,
    };
    assert_eq!(c.created_ago_at(1_000_000 + 2 * 86400), "2d ago");
    assert_eq!(c.created_ago_at(1_000_000 + 3 * 3600), "3h ago");
    assert_eq!(c.created_ago_at(1_000_000 + 5 * 60), "5m ago");
    assert_eq!(c.created_ago_at(1_000_000 + 59), "just now");
    assert_eq!(c.created_ago_at(1_000_000 - 100), "just now");
}

#[test]
fn long_ages_with_plurals() {
    let img = image("nginx", "latest", 1, true);
    let t0 = img.created_at_secs;
    assert_eq!(img.created_ago_at(t0 + 60 * 86400), "2 months ago");
    assert_eq!(img.created_ago_at(t0 + 30 * 86400), "1 month ago");
    assert_eq!(img.created_ago_at(t0 + 14 * 86400), "2 weeks ago");
    assert_eq!(img.created_ago_at(t0 + 7 * 86400), "1 week ago");
    assert_eq!(img.created_ago_at(t0 + 3 * 86400), "3 days ago");
    assert_eq!(img.created_ago_at(t0 + 86400), "1 day ago");
    assert_eq!(img.created_ago_at(t0 + 5 * 3600), "5 hours ago");
    assert_eq!(img.created_ago_at(t0 + 3600), "1 hour ago");
    assert_eq!(img.created_ago_at(t0 + 120), "just now");
    assert_eq!(img.created_ago_at(t0 - 7 * 86400), "just now");
}

#[test]
fn age_against_the_real_clock() {
    // Created at the epoch, so against any present-day clock the short
    // form lands in whole days.
    let c = ContainerViewModel {
        id: "c1".to_string(),
        name: "web".to_string(),
        image: "nginx:latest".to_string(),
        state: ContainerState::Stopped,
        ports: vec![],
        created_at_secs: 0,
        compose_project: None,
    };
    assert!(c.created_ago().ends_with("d ago"));
}

#[test]
fn full_name_joins_repository_and_tag() {
    assert_eq!(image("nginx", "latest", 1, true).full_name(), "nginx:latest");
    assert_eq!(image("<none>", "<none>", 1, false).full_name(), "<none>:<none>");
}

#[test]
fn image_stats_are_exact() {
    let images = vec![
        image("a", "1", 100, true),
        image("b", "1", 250, false),
        image("c", "1", 50, false),
    ];
    let (total, unused, count, unused_count) = calculate_image_stats(&images);
    assert_eq!(total, 400);
    assert_eq!(unused, 300);
    assert_eq!(count, 3);
    assert_eq!(unused_count, 2);
}

#[test]
fn image_stats_of_nothing() {
    let (total, unused, count, unused_count) = calculate_image_stats(&vec![]);
    assert_eq!((total, unused, count, unused_count), (0, 0, 0, 0));
}

#[test]
fn machine_resources_display() {
    let m = MachineViewModel {
        id: "m1".to_string(),
        name: "ubuntu-dev".to_string(),
        distro: DistroInfo {
            name: "ubuntu".to_string(),
            version: "24.04".to_string(),
            display_name: "Ubuntu 24.04 LTS".to_string(),
        },
        state: MachineState::Running,
        cpu_cores: 4,
        memory_gb: 4,
        disk_gb: 20,
        ip_address: None,
        created_at_secs: 0,
    };
    assert_eq!(m.resources_display(), "4 cores, 4 GB RAM, 20 GB disk");
    assert!(m.is_running());
}

#[test]
fn network_short_id_takes_twelve_chars() {
    assert_eq!(network("mynet", 0).short_id(), "0123456789ab");
    let mut short = network("mynet", 0);
    short.id = "abc".to_string();
    assert_eq!(short.short_id(), "abc");
}

#[test]
fn network_displays() {
    let n = network("mynet", 0);
    assert_eq!(n.driver_display(), "bridge (local)");
    assert_eq!(n.usage_display(), "No containers");
    assert_eq!(network("mynet", 1).usage_display(), "1 container");
    assert_eq!(network("mynet", 7).usage_display(), "7 containers");
}

#[test]
fn system_networks_are_recognized() {
    assert!(network("bridge", 0).is_system());
    assert!(network("host", 0).is_system());
    assert!(network("none", 0).is_system());
    assert!(!network("mynet", 0).is_system());
}

#[test]
fn volume_usage_display() {
    let mut v = VolumeViewModel {
        name: "data".to_string(),
        driver: "local".to_string(),
        mount_point: "/var/lib/volumes/data".to_string(),
        size_bytes: Some(1000),
        created_at_secs: 0,
        in_use: true,
        container_names: vec!["postgres".to_string()],
    };
    assert_eq!(v.usage_display(), "Used by postgres");
    v.container_names = vec!["a".to_string(), "b".to_string()];
    assert_eq!(v.usage_display(), "Used by 2 containers");
    v.in_use = false;
    assert_eq!(v.usage_display(), "Unused");
}
