use rocker::container::{
    container_base_path, container_directories, container_mnt_path, container_mount_plan,
    container_unmount_paths, containers_root, exec_ns_paths, overlay_mount_options,
    prepare_and_execute_container,
};
use rocker::image::Manifest;
use rocker::strutil::u64_to_string;

#[test]
fn decimal_rendering() {
    assert_eq!(u64_to_string(0), "0");
    assert_eq!(u64_to_string(7), "7");
    assert_eq!(u64_to_string(42), "42");
    assert_eq!(u64_to_string(1234567890), "1234567890");
    assert_eq!(u64_to_string(u64::MAX), "18446744073709551615");
}

#[test]
fn container_paths() {
    assert_eq!(containers_root(), "/var/run/rocker/containers");
    assert_eq!(
        container_base_path("abcdef012345"),
        "/var/run/rocker/containers/abcdef012345"
    );
    assert_eq!(
        container_mnt_path("abcdef012345"),
        "/var/run/rocker/containers/abcdef012345/fs/mnt"
    );
    assert_eq!(
        container_directories("abcdef012345"),
        vec![
            "/var/run/rocker/containers/abcdef012345/fs".to_string(),
            "/var/run/rocker/containers/abcdef012345/fs/mnt".to_string(),
            "/var/run/rocker/containers/abcdef012345/fs/upperdir".to_string(),
            "/var/run/rocker/containers/abcdef012345/fs/workdir".to_string(),
        ]
    );
}

#[test]
fn overlay_options_follow_manifest_order() {
    let m = Manifest {
        config_digest: "sha256:fedcba9876543210ffff".to_string(),
        layers: vec![
            "sha256:aaaa000000000000ffff".to_string(),
            "sha256:bbbb111111111111ffff".to_string(),
        ],
    };
    let opts = overlay_mount_options(&m, "abcdef012345", "fedcba987654").unwrap();
    let expected = format!(
        "lowerdir={}:{},upperdir={},workdir={}",
        "/var/lib/rocker/images/fedcba987654/aaaa00000000/fs",
        "/var/lib/rocker/images/fedcba987654/bbbb11111111/fs",
        "/var/run/rocker/containers/abcdef012345/fs/upperdir",
        "/var/run/rocker/containers/abcdef012345/fs/workdir"
    );
    assert_eq!(opts, expected);
}

#[test]
fn overlay_options_single_layer() {
    let m = Manifest {
        config_digest: "sha256:fedcba9876543210ffff".to_string(),
        layers: vec!["sha256:aaaa000000000000ffff".to_string()],
    };
    let opts = overlay_mount_options(&m, "abcdef012345", "fedcba987654").unwrap();
    assert!(opts.starts_with("lowerdir=/var/lib/rocker/images/fedcba987654/aaaa00000000/fs,"));
}

#[test]
fn overlay_options_reject_short_layer_digest() {
    let m = Manifest {
        config_digest: "sha256:fedcba9876543210ffff".to_string(),
        layers: vec!["bad".to_string()],
    };
    assert!(overlay_mount_options(&m, "abcdef012345", "fedcba987654").is_err());
}

#[test]
fn in_container_mounts_in_order() {
    let plan = container_mount_plan();
    let rows: Vec<(bool, &str, &str, &str)> = plan
        .iter()
        .map(|s| (s.mkdir, s.source.as_str(), s.target.as_str(), s.fstype.as_str()))
        .collect();
    assert_eq!(
        rows,
        vec![
            (true, "proc", "/proc", "proc"),
            (false, "tmpfs", "/tmp", "tmpfs"),
            (false, "tmpfs", "/dev", "tmpfs"),
            (true, "devpts", "/dev/pts", "devpts"),
            (true, "sysfs", "/sys", "sysfs"),
        ]
    );
}

#[test]
fn unmount_order_is_reverse_dependency_order() {
    let mnt = "/var/run/rocker/containers/abcdef012345/fs/mnt";
    assert_eq!(
        container_unmount_paths(mnt),
        vec![
            format!("{}/dev/pts", mnt),
            format!("{}/dev", mnt),
            format!("{}/sys", mnt),
            format!("{}/proc", mnt),
            format!("{}/tmp", mnt),
        ]
    );
}

#[test]
fn exec_joins_namespaces_in_order() {
    assert_eq!(
        exec_ns_paths("4242"),
        vec![
            "/proc/4242/ns/ipc".to_string(),
            "/proc/4242/ns/mnt".to_string(),
            "/proc/4242/ns/pid".to_string(),
            "/proc/4242/ns/uts".to_string(),
        ]
    );
}

#[test]
fn prepare_stub_returns_ok() {
    let r = prepare_and_execute_container(
        None,
        None,
        None,
        None,
        &"abcdef012345".to_string(),
        &"fedcba987654".to_string(),
        "/bin/sh".to_string(),
    );
    assert!(r.is_ok());
}
