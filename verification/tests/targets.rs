use nullscan::targets::{
    enumerate_hosts, network_targets, resolve_targets, target_items, IpAddress, Lookup, Network,
    Resolution, TargetError,
};

fn v4(a: u8, b: u8, c: u8, d: u8) -> IpAddress {
    IpAddress::V4(u32::from_be_bytes([a, b, c, d]))
}

fn done(r: Resolution) -> (Vec<IpAddress>, bool) {
    match r {
        Resolution::Done { targets, truncated } => (targets, truncated),
        other => panic!("not done: {:?}", other),
    }
}

fn failed(r: Resolution) -> TargetError {
    match r {
        Resolution::Failed(e) => e,
        other => panic!("not failed: {:?}", other),
    }
}

#[test]
fn large_network_yields_exactly_1024_targets() {
    let (hosts, truncated) = network_targets("10.0.0.0/8").unwrap();
    assert_eq!(hosts.len(), 1024);
    assert!(truncated);
    assert_eq!(hosts[0], v4(10, 0, 0, 1));
    assert_eq!(hosts[1023], v4(10, 0, 4, 0));
    let (targets, truncated) = done(resolve_targets("10.0.0.0/8", false, &vec![]));
    assert_eq!(targets.len(), 1024);
    assert!(truncated);
}

#[test]
fn network_of_1024_hosts_is_not_truncated() {
    // A /22 has 1022 hosts, a /21 has 2046.
    let (hosts, truncated) = network_targets("192.168.0.0/22").unwrap();
    assert_eq!(hosts.len(), 1022);
    assert!(!truncated);
    assert_eq!(hosts[1021], v4(192, 168, 3, 254));
    let (hosts, truncated) = network_targets("192.168.0.0/21").unwrap();
    assert_eq!(hosts.len(), 1024);
    assert!(truncated);
}

#[test]
fn small_networks() {
    let (hosts, truncated) = network_targets("10.0.0.0/30").unwrap();
    assert_eq!(hosts, vec![v4(10, 0, 0, 1), v4(10, 0, 0, 2)]);
    assert!(!truncated);
    let (hosts, _) = network_targets("10.0.0.0/31").unwrap();
    assert_eq!(hosts, vec![v4(10, 0, 0, 0), v4(10, 0, 0, 1)]);
    let (hosts, _) = network_targets("10.1.2.3/32").unwrap();
    assert_eq!(hosts, vec![v4(10, 1, 2, 3)]);
    // The address need not be the network address.
    let (hosts, _) = network_targets("172.16.5.77/29").unwrap();
    assert_eq!(hosts.len(), 6);
    assert_eq!(hosts[0], v4(172, 16, 5, 73));
    assert_eq!(hosts[5], v4(172, 16, 5, 78));
}

#[test]
fn whole_ipv4_space_starts_at_one() {
    let (hosts, truncated) = network_targets("0.0.0.0/0").unwrap();
    assert_eq!(hosts.len(), 1024);
    assert!(truncated);
    assert_eq!(hosts[0], IpAddress::V4(1));
}

#[test]
fn ipv6_networks_hold_every_address() {
    let (hosts, truncated) = network_targets("fd00::/126").unwrap();
    let base: u128 = 0xfd00u128 << 112;
    assert_eq!(
        hosts,
        vec![
            IpAddress::V6(base),
            IpAddress::V6(base + 1),
            IpAddress::V6(base + 2),
            IpAddress::V6(base + 3)
        ]
    );
    assert!(!truncated);
    let (hosts, truncated) = network_targets("fd00::/64").unwrap();
    assert_eq!(hosts.len(), 1024);
    assert!(truncated);
    let (hosts, truncated) = network_targets("::/0").unwrap();
    assert_eq!(hosts.len(), 1024);
    assert_eq!(hosts[0], IpAddress::V6(0));
    assert!(truncated);
    let (hosts, _) = network_targets("::1/128").unwrap();
    assert_eq!(hosts, vec![IpAddress::V6(1)]);
}

#[test]
fn enumerate_from_a_network_value() {
    let net = Network::V4 { addr: u32::from_be_bytes([192, 168, 1, 200]), prefix_len: 24 };
    let (hosts, truncated) = enumerate_hosts(&net);
    assert_eq!(hosts.len(), 254);
    assert_eq!(hosts[0], v4(192, 168, 1, 1));
    assert_eq!(hosts[253], v4(192, 168, 1, 254));
    assert!(!truncated);
    // A prefix length beyond the address width leaves no host.
    let (hosts, truncated) = enumerate_hosts(&Network::V4 { addr: 1, prefix_len: 33 });
    assert!(hosts.is_empty() && !truncated);
    let (hosts, truncated) = enumerate_hosts(&Network::V6 { addr: 1, prefix_len: 129 });
    assert!(hosts.is_empty() && !truncated);
}

#[test]
fn invalid_cidr_is_no_network() {
    assert!(network_targets("10.0.0.0/33").is_none());
    assert!(network_targets("10.0.0/8").is_none());
    assert!(network_targets("10.0.0.0").is_none());
    assert!(network_targets("fd00::/129").is_none());
    assert!(network_targets(" 10.0.0.0/8").is_none());
    assert!(network_targets("example.com/24").is_none());
}

#[test]
fn items_of_a_specification() {
    assert_eq!(target_items("10.0.0.1"), vec!["10.0.0.1"]);
    assert_eq!(target_items(" host "), vec![" host "]);
    assert_eq!(target_items(" a , b,c"), vec!["a", "b", "c"]);
    assert_eq!(target_items("a,"), vec!["a", ""]);
}

#[test]
fn a_name_is_asked_for_and_then_taken() {
    match resolve_targets("example.com", false, &vec![]) {
        Resolution::NeedAddress { item, lookup_allowed } => {
            assert_eq!(item, 0);
            assert!(lookup_allowed);
        }
        other => panic!("unexpected: {:?}", other),
    }
    match resolve_targets("example.com", true, &vec![]) {
        Resolution::NeedAddress { item, lookup_allowed } => {
            assert_eq!(item, 0);
            assert!(!lookup_allowed);
        }
        other => panic!("unexpected: {:?}", other),
    }
    let (targets, truncated) =
        done(resolve_targets("example.com", false, &vec![Lookup::Address(v4(93, 184, 216, 34))]));
    assert_eq!(targets, vec![v4(93, 184, 216, 34)]);
    assert!(!truncated);
}

#[test]
fn a_list_is_resolved_in_order() {
    let spec = "10.0.0.0/30, host-a ,192.168.1.1,10.1.0.0/31";
    match resolve_targets(spec, false, &vec![]) {
        Resolution::NeedAddress { item, .. } => assert_eq!(item, 1),
        other => panic!("unexpected: {:?}", other),
    }
    let one = vec![Lookup::Address(v4(1, 1, 1, 1))];
    match resolve_targets(spec, false, &one) {
        Resolution::NeedAddress { item, .. } => assert_eq!(item, 2),
        other => panic!("unexpected: {:?}", other),
    }
    let two = vec![Lookup::Address(v4(1, 1, 1, 1)), Lookup::Address(v4(192, 168, 1, 1))];
    let (targets, truncated) = done(resolve_targets(spec, false, &two));
    assert_eq!(
        targets,
        vec![
            v4(10, 0, 0, 1),
            v4(10, 0, 0, 2),
            v4(1, 1, 1, 1),
            v4(192, 168, 1, 1),
            v4(10, 1, 0, 0),
            v4(10, 1, 0, 1)
        ]
    );
    assert!(!truncated);
}

#[test]
fn truncation_is_reported_for_a_list() {
    let (targets, truncated) = done(resolve_targets("10.0.0.0/30,10.0.0.0/16", true, &vec![]));
    assert_eq!(targets.len(), 2 + 1024);
    assert!(truncated);
}

#[test]
fn each_error_has_its_input() {
    assert_eq!(
        failed(resolve_targets("10.0.0.0/40", false, &vec![])),
        TargetError::InvalidCidr { item: 0 }
    );
    assert_eq!(
        failed(resolve_targets("10.0.0.1/32,bad/24", false, &vec![])),
        TargetError::InvalidCidr { item: 1 }
    );
    assert_eq!(
        failed(resolve_targets("name", true, &vec![Lookup::NotAnAddress])),
        TargetError::NotAnAddress { item: 0 }
    );
    assert_eq!(
        failed(resolve_targets("a,name", false, &vec![Lookup::Address(v4(1, 2, 3, 4)), Lookup::Failed])),
        TargetError::ResolutionFailed { item: 1 }
    );
    assert_eq!(
        failed(resolve_targets("name", false, &vec![Lookup::NoAddress])),
        TargetError::NoAddressFound { item: 0 }
    );
}

#[test]
fn the_first_rejected_item_fails_the_list() {
    // The name comes first: it is asked for before the bad network is seen.
    match resolve_targets("name,bad/24", false, &vec![]) {
        Resolution::NeedAddress { item, .. } => assert_eq!(item, 0),
        other => panic!("unexpected: {:?}", other),
    }
    assert_eq!(
        failed(resolve_targets("name,bad/24", false, &vec![Lookup::Failed])),
        TargetError::ResolutionFailed { item: 0 }
    );
    assert_eq!(
        failed(resolve_targets("bad/24,name", false, &vec![])),
        TargetError::InvalidCidr { item: 0 }
    );
}

#[test]
fn single_specification_is_not_trimmed() {
    assert_eq!(
        failed(resolve_targets(" 10.0.0.0/30", false, &vec![])),
        TargetError::InvalidCidr { item: 0 }
    );
    let (targets, _) = done(resolve_targets(" 10.0.0.0/30 ,10.0.0.9/32", false, &vec![]));
    assert_eq!(targets.len(), 3);
}
