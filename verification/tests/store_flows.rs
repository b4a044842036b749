use rocker::container::{
    create_container_id, fetch_running_containers, lookup_container_pid, record_container_state,
    teardown_container_state,
};
use rocker::db::{
    container_commands_key, container_image_hashes_key, container_pids_key, downloaded_images_key,
    used_ip_addresses_key, veth_ip_addresses_key,
};
use rocker::errors::Error;
use rocker::image::{
    fetch_available_images, is_image_already_downloaded, record_downloaded_image,
};
use rocker::network::{allocate_ip_address, record_veth_ip};
use rocker::store::Store;

fn open_store(name: &str) -> Store {
    let path = format!("/tmp/rocker-test-stores/{}", name);
    Store::open(&path).expect("store must open")
}

#[test]
fn key_helpers_prepend_their_prefix() {
    assert_eq!(downloaded_images_key("abc"), "downloaded_images/abc");
    assert_eq!(container_commands_key("abc"), "container_commands/abc");
    assert_eq!(
        container_image_hashes_key("abc"),
        "container_image_hashes/abc"
    );
    assert_eq!(container_pids_key("abc"), "container_pids/abc");
    assert_eq!(used_ip_addresses_key("172.28.0.9"), "used_ip_addresses/172.28.0.9");
    assert_eq!(
        veth_ip_addresses_key("ns-veth-abcdef"),
        "veth_ip_addresses/ns-veth-abcdef"
    );
}

#[test]
fn container_ids_are_twelve_hex_characters() {
    let store = open_store("ids");
    let id = create_container_id(&store).unwrap();
    assert_eq!(id.len(), 12);
    assert!(id.chars().all(|c| c.is_ascii_hexdigit() && !c.is_ascii_uppercase()));
    let id2 = create_container_id(&store).unwrap();
    assert_eq!(id2.len(), 12);
}

#[test]
fn allocated_ips_are_distinct_and_reserved() {
    let mut store = open_store("ips");
    let ip1 = allocate_ip_address(&mut store).unwrap();
    let ip2 = allocate_ip_address(&mut store).unwrap();
    assert_ne!(ip1, ip2);
    assert!(ip1.starts_with("172.28."));
    assert!(ip2.starts_with("172.28."));
    let k1 = used_ip_addresses_key(&ip1);
    assert_eq!(store.get(&k1).unwrap(), Some("1".to_string()));
    let k2 = used_ip_addresses_key(&ip2);
    assert_eq!(store.get(&k2).unwrap(), Some("1".to_string()));
}

#[test]
fn ensure_is_cached_after_recording() {
    let mut store = open_store("cache");
    let hash = "fedcba987654";
    store.delete(&downloaded_images_key(hash)).unwrap();
    assert_eq!(is_image_already_downloaded(&store, hash), Ok(false));
    record_downloaded_image(&mut store, hash, "library/ubuntu", "latest").unwrap();
    assert_eq!(is_image_already_downloaded(&store, hash), Ok(true));
    let entry = store.get(&downloaded_images_key(hash)).unwrap();
    assert_eq!(entry, Some("library/ubuntu:latest".to_string()));
}

#[test]
fn recorded_container_is_listed_and_torn_down() {
    let mut store = open_store("lifecycle");
    let id = "abcdef012345";
    record_downloaded_image(&mut store, "fedcba987654", "library/ubuntu", "latest").unwrap();
    record_container_state(&mut store, id, "/bin/sh", "fedcba987654", 4242).unwrap();
    record_veth_ip(&mut store, id, "172.28.9.9").unwrap();
    store.put(&used_ip_addresses_key("172.28.9.9"), "1").unwrap();

    assert_eq!(
        lookup_container_pid(&store, id).unwrap(),
        Some("4242".to_string())
    );

    let listed = fetch_running_containers(&store, &vec![id.to_string()]).unwrap();
    assert_eq!(listed.len(), 1);
    assert_eq!(listed[0].id, id);
    assert_eq!(listed[0].image_name, "library/ubuntu");
    assert_eq!(listed[0].image_hash, "fedcba987654");
    assert_eq!(listed[0].command, "/bin/sh");

    let freed_ip = teardown_container_state(&mut store, id).unwrap();
    assert_eq!(freed_ip, "172.28.9.9");
    // No bookkeeping for the container remains.
    assert_eq!(store.get(&container_commands_key(id)).unwrap(), None);
    assert_eq!(store.get(&container_image_hashes_key(id)).unwrap(), None);
    assert_eq!(store.get(&container_pids_key(id)).unwrap(), None);
    assert_eq!(store.get(&used_ip_addresses_key("172.28.9.9")).unwrap(), None);
    assert_eq!(
        store.get(&veth_ip_addresses_key("ns-veth-abcdef")).unwrap(),
        None
    );
    // The image cache outlives the container.
    assert_eq!(is_image_already_downloaded(&store, "fedcba987654"), Ok(true));
}

#[test]
fn teardown_without_ip_mapping_is_ip_not_found() {
    let mut store = open_store("teardown-missing");
    let r = teardown_container_state(&mut store, "0123456789ab");
    assert_eq!(r.err(), Some(Error::IpNotFound));
}

#[test]
fn empty_container_listing_succeeds() {
    let store = open_store("empty-containers");
    let listed = fetch_running_containers(&store, &Vec::new()).unwrap();
    assert!(listed.is_empty());
}

#[test]
fn empty_image_listing_succeeds() {
    let store = open_store("empty-images");
    let listed = fetch_available_images(&store, &Vec::new()).unwrap();
    assert!(listed.is_empty());
}

#[test]
fn unknown_container_fails_listing() {
    let store = open_store("unknown-container");
    let r = fetch_running_containers(&store, &vec!["ffffffffffff".to_string()]);
    assert_eq!(r.err(), Some(Error::ContainerNotFound));
}

#[test]
fn unknown_pid_lookup_is_none() {
    let store = open_store("unknown-pid");
    assert_eq!(lookup_container_pid(&store, "eeeeeeeeeeee").unwrap(), None);
}

#[test]
fn image_listing_joins_store_entries() {
    let mut store = open_store("images-listing");
    record_downloaded_image(&mut store, "aaaa00000000", "library/ubuntu", "latest").unwrap();
    record_downloaded_image(&mut store, "bbbb11111111", "grafana/loki", "2.9").unwrap();
    let imgs = fetch_available_images(
        &store,
        &vec!["aaaa00000000".to_string(), "bbbb11111111".to_string()],
    )
    .unwrap();
    assert_eq!(imgs.len(), 2);
    assert_eq!(imgs[0].image_hash, "aaaa00000000");
    assert_eq!(imgs[0].name, "library/ubuntu");
    assert_eq!(imgs[0].tag, "latest");
    assert_eq!(imgs[1].name, "grafana/loki");
    assert_eq!(imgs[1].tag, "2.9");
}

#[test]
fn image_listing_rejects_unknown_or_malformed_entries() {
    let mut store = open_store("images-bad");
    let r = fetch_available_images(&store, &vec!["cccc22222222".to_string()]);
    assert_eq!(r.err(), Some(Error::InvalidImageName));
    store.put(&downloaded_images_key("dddd33333333"), "no-colon-here").unwrap();
    let r = fetch_available_images(&store, &vec!["dddd33333333".to_string()]);
    assert_eq!(r.err(), Some(Error::InvalidImageName));
}
