use std::collections::BTreeMap;
use traceroute::duration::Duration;
use traceroute::engine::hop::{reduce_final_result, trace_reached, TracerouteHop};
use traceroute::net::{IpAddr, Ipv4Addr};

fn v4(a: u8, b: u8, c: u8, d: u8) -> IpAddr {
    IpAddr::V4(Ipv4Addr::new(a, b, c, d))
}

fn answered(ttl: u16, address: IpAddr, millis: u64) -> TracerouteHop {
    TracerouteHop {
        success: true,
        address: Some(address),
        ttl,
        rtt: Some(Duration::from_millis(millis)),
    }
}

fn silent(ttl: u16) -> TracerouteHop {
    TracerouteHop {
        success: false,
        address: None,
        ttl,
        rtt: None,
    }
}

#[test]
fn test_reduce_final_result_truncates_after_destination() {
    let dest_ip: IpAddr = v4(8, 8, 8, 8);
    let mut preliminary: BTreeMap<u16, Vec<TracerouteHop>> = BTreeMap::new();

    // Hop 1: Intermediate router
    preliminary.insert(1, vec![answered(1, v4(192, 168, 1, 1), 5)]);

    // Hop 2: Destination reached
    preliminary.insert(2, vec![answered(2, dest_ip, 15)]);

    // Hop 3: Extraneous hop that should be discarded
    preliminary.insert(3, vec![answered(3, v4(10, 0, 0, 1), 20)]);

    let final_results = reduce_final_result(preliminary, 30, dest_ip);
    assert_eq!(final_results.len(), 2);
    assert!(final_results.contains_key(&1));
    assert!(final_results.contains_key(&2));
    assert!(!final_results.contains_key(&3));
}

#[test]
fn reduction_stops_at_the_first_missing_ttl() {
    let dest_ip = v4(8, 8, 8, 8);
    let mut preliminary: BTreeMap<u16, Vec<TracerouteHop>> = BTreeMap::new();
    preliminary.insert(1, vec![silent(1), answered(1, v4(10, 0, 0, 1), 3)]);
    preliminary.insert(3, vec![answered(3, dest_ip, 9)]);
    let reduced = reduce_final_result(preliminary, 30, dest_ip);
    assert_eq!(reduced.len(), 1);
    assert_eq!(
        reduced.get(&1),
        Some(&vec![silent(1), answered(1, v4(10, 0, 0, 1), 3)])
    );
}

#[test]
fn reduction_keeps_no_ttl_beyond_max_hops() {
    let dest_ip = v4(8, 8, 8, 8);
    let mut preliminary: BTreeMap<u16, Vec<TracerouteHop>> = BTreeMap::new();
    for ttl in 1..=5u16 {
        preliminary.insert(ttl, vec![silent(ttl)]);
    }
    let reduced = reduce_final_result(preliminary, 3, dest_ip);
    assert_eq!(reduced.keys().copied().collect::<Vec<_>>(), vec![1, 2, 3]);
    assert_eq!(reduce_final_result(BTreeMap::new(), 3, dest_ip).len(), 0);
}

#[test]
fn reduction_keeps_every_probe_of_the_reaching_ttl() {
    let dest_ip = v4(8, 8, 8, 8);
    let mut preliminary: BTreeMap<u16, Vec<TracerouteHop>> = BTreeMap::new();
    let hop1 = vec![answered(1, dest_ip, 2), silent(1), answered(1, v4(1, 1, 1, 1), 4)];
    preliminary.insert(1, hop1.clone());
    preliminary.insert(2, vec![answered(2, dest_ip, 2)]);
    let reduced = reduce_final_result(preliminary, 30, dest_ip);
    assert_eq!(reduced.len(), 1);
    assert_eq!(reduced.get(&1), Some(&hop1));
}

#[test]
fn reducing_twice_changes_nothing() {
    let dest_ip = v4(8, 8, 8, 8);
    let mut preliminary: BTreeMap<u16, Vec<TracerouteHop>> = BTreeMap::new();
    preliminary.insert(1, vec![answered(1, v4(192, 168, 1, 1), 5)]);
    preliminary.insert(2, vec![answered(2, dest_ip, 15)]);
    preliminary.insert(3, vec![answered(3, v4(10, 0, 0, 1), 20)]);
    let once = reduce_final_result(preliminary, 30, dest_ip);
    let twice = reduce_final_result(once.clone(), 30, dest_ip);
    assert_eq!(once, twice);
}

#[test]
fn a_probe_that_failed_never_reaches() {
    let dest_ip = v4(8, 8, 8, 8);
    let mut hops: BTreeMap<u16, Vec<TracerouteHop>> = BTreeMap::new();
    hops.insert(
        1,
        vec![TracerouteHop {
            success: false,
            address: Some(dest_ip),
            ttl: 1,
            rtt: None,
        }],
    );
    assert!(!trace_reached(&hops, 30, dest_ip));
    hops.insert(2, vec![answered(2, dest_ip, 7)]);
    assert!(trace_reached(&hops, 30, dest_ip));
    // A TTL outside the trace's range is not looked at.
    assert!(!trace_reached(&hops, 1, dest_ip));
}
