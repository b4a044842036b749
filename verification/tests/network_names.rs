use rocker::network::{
    bridge_address, bridge_is_up, bridge_name, bridge_side_veth_name, container_side_veth_name,
    format_ip, netns_name, netns_path, netns_setup_actions, network_address,
    setup_bridge_actions, BridgeAction, NetAction,
};

#[test]
fn veth_names_use_six_leading_id_characters() {
    assert_eq!(bridge_side_veth_name("abcdef012345"), "br-veth-abcdef");
    assert_eq!(container_side_veth_name("abcdef012345"), "ns-veth-abcdef");
}

#[test]
fn netns_names_and_paths() {
    assert_eq!(netns_name("abcdef012345"), "ns-abcdef012345");
    assert_eq!(netns_path("abcdef012345"), "/run/netns/ns-abcdef012345");
}

#[test]
fn network_constants() {
    assert_eq!(bridge_name(), "rocker0");
    assert_eq!(bridge_address(), "172.28.0.1");
    assert_eq!(network_address(), "172.28.0.0/16");
}

#[test]
fn ip_formatting() {
    assert_eq!(format_ip(0, 0), "172.28.0.0");
    assert_eq!(format_ip(5, 200), "172.28.5.200");
    assert_eq!(format_ip(255, 255), "172.28.255.255");
}

#[test]
fn bridge_probe_needs_name_and_up_bit() {
    let rows = vec![
        ("eth0".to_string(), 1u32),
        ("rocker0".to_string(), 0u32),
    ];
    assert!(!bridge_is_up(&rows));
    let rows = vec![("rocker0".to_string(), 1u32)];
    assert!(bridge_is_up(&rows));
    let rows = vec![("rocker0".to_string(), 3u32)];
    assert!(bridge_is_up(&rows));
    let rows: Vec<(String, u32)> = Vec::new();
    assert!(!bridge_is_up(&rows));
}

#[test]
fn bridge_setup_when_link_exists_only_sets_up() {
    let acts = setup_bridge_actions(true);
    assert_eq!(acts.len(), 1);
    assert!(matches!(acts[0], BridgeAction::SetUp));
}

#[test]
fn bridge_setup_when_link_missing_creates_addresses_and_sets_up() {
    let acts = setup_bridge_actions(false);
    assert_eq!(acts.len(), 3);
    assert!(matches!(acts[0], BridgeAction::AddBridge));
    assert!(matches!(acts[1], BridgeAction::AddAddress));
    assert!(matches!(acts[2], BridgeAction::SetUp));
}

#[test]
fn second_bridge_setup_adds_no_address() {
    // After any first setup the link exists, so the second plan holds no
    // AddAddress step.
    let second = setup_bridge_actions(true);
    assert!(second
        .iter()
        .all(|a| !matches!(a, BridgeAction::AddAddress)));
}

#[test]
fn netns_wiring_plan() {
    let acts = netns_setup_actions("abcdef012345", "172.28.5.200");
    assert_eq!(acts.len(), 4);
    match &acts[0] {
        NetAction::AddAddress { interface, address, prefix_len } => {
            assert_eq!(interface, "ns-veth-abcdef");
            assert_eq!(address, "172.28.5.200");
            assert_eq!(*prefix_len, 16);
        }
        _ => panic!("first step must address the veth"),
    }
    match &acts[1] {
        NetAction::SetLinkUp { interface } => assert_eq!(interface, "ns-veth-abcdef"),
        _ => panic!("second step must bring the veth up"),
    }
    match &acts[2] {
        NetAction::AddDefaultRoute { gateway } => assert_eq!(gateway, "172.28.0.1"),
        _ => panic!("third step must route through the bridge"),
    }
    match &acts[3] {
        NetAction::AddAddress { interface, address, prefix_len } => {
            assert_eq!(interface, "lo");
            assert_eq!(address, "127.0.0.1");
            assert_eq!(*prefix_len, 32);
        }
        _ => panic!("last step must address loopback"),
    }
}
