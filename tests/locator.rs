use leader_locator::contact::{find_contact, get_ip_from_contact_info};
use leader_locator::geo::{classify, matches_any, nearest_region, prefixes, AddressPrefix};
use leader_locator::locator::SLOT_DURATION_MILLIS;
use leader_locator::{
    get_closest_zela_server_region, select_probable_leader, ContactInfo, IpAddress, LeaderGeo,
    LeaderLocator, LocateError, SocketAddress, ZelaServerRegion,
};

fn sock(a: u8, b: u8, c: u8, d: u8) -> SocketAddress {
    SocketAddress { ip: IpAddress::V4(a, b, c, d), port: 8001 }
}

fn contact(key: &str, gossip: Option<SocketAddress>) -> ContactInfo {
    ContactInfo { pubkey: key.to_string(), gossip, rpc: None, tvu: None, tpu: None }
}

fn rotation(keys: &[&str]) -> Vec<String> {
    keys.iter().map(|k| k.to_string()).collect()
}

#[test]
fn early_fetch_selects_first_entry() {
    let r = select_probable_leader(&rotation(&["L1", "L2"]), 50, 400);
    assert_eq!(r, Ok("L1".to_string()));
}

#[test]
fn late_fetch_selects_second_entry() {
    let r = select_probable_leader(&rotation(&["L1", "L2"]), 250, 400);
    assert_eq!(r, Ok("L2".to_string()));
}

#[test]
fn half_slot_exactly_selects_second_entry() {
    let r = select_probable_leader(&rotation(&["L1", "L2", "L3"]), 200, 400);
    assert_eq!(r, Ok("L2".to_string()));
    let r = select_probable_leader(&rotation(&["L1", "L2"]), 199, 400);
    assert_eq!(r, Ok("L1".to_string()));
}

#[test]
fn late_fetch_with_single_entry_falls_back() {
    let r = select_probable_leader(&rotation(&["L1"]), 1000, 400);
    assert_eq!(r, Ok("L1".to_string()));
}

#[test]
fn negative_elapsed_counts_as_no_time() {
    let r = select_probable_leader(&rotation(&["L1", "L2"]), -300, 400);
    assert_eq!(r, Ok("L1".to_string()));
    let r = select_probable_leader(&rotation(&["L1", "L2"]), i64::MIN, u64::MAX);
    assert_eq!(r, Ok("L1".to_string()));
}

#[test]
fn empty_rotation_fails() {
    assert_eq!(select_probable_leader(&Vec::new(), 0, 400), Err(LocateError::EmptyRotation));
    assert_eq!(select_probable_leader(&Vec::new(), 900, 400), Err(LocateError::EmptyRotation));
}

#[test]
fn north_american_address() {
    let geo = classify(&IpAddress::V4(44, 1, 2, 3));
    assert_eq!(geo, LeaderGeo::NorthAmerica);
    assert_eq!(nearest_region(geo), ZelaServerRegion::NewYork);
}

#[test]
fn asian_address() {
    let geo = classify(&IpAddress::V4(61, 111, 9, 9));
    assert_eq!(geo, LeaderGeo::Asia);
    assert_eq!(nearest_region(geo), ZelaServerRegion::Tokyo);
}

#[test]
fn unmatched_address_is_unknown() {
    let geo = classify(&IpAddress::V4(9, 9, 9, 9));
    assert_eq!(geo, LeaderGeo::Unknown);
    assert_eq!(nearest_region(geo), ZelaServerRegion::Dubai);
}

#[test]
fn european_and_south_american_addresses() {
    assert_eq!(classify(&IpAddress::V4(212, 69, 0, 1)), LeaderGeo::Europe);
    assert_eq!(classify(&IpAddress::V4(186, 233, 7, 7)), LeaderGeo::SouthAmerica);
    assert_eq!(classify(&IpAddress::V4(186, 234, 7, 7)), LeaderGeo::Unknown);
    assert_eq!(classify(&IpAddress::V4(64, 13, 0, 1)), LeaderGeo::Unknown);
    assert_eq!(classify(&IpAddress::V4(4, 4, 1, 1)), LeaderGeo::Unknown);
}

#[test]
fn ipv6_is_unknown() {
    assert_eq!(classify(&IpAddress::V6(0)), LeaderGeo::Unknown);
    assert_eq!(classify(&IpAddress::V6(u128::MAX)), LeaderGeo::Unknown);
}

#[test]
fn every_bucket_has_a_region() {
    assert_eq!(nearest_region(LeaderGeo::NorthAmerica), ZelaServerRegion::NewYork);
    assert_eq!(nearest_region(LeaderGeo::SouthAmerica), ZelaServerRegion::NewYork);
    assert_eq!(nearest_region(LeaderGeo::Europe), ZelaServerRegion::Frankfurt);
    assert_eq!(nearest_region(LeaderGeo::Asia), ZelaServerRegion::Tokyo);
    assert_eq!(nearest_region(LeaderGeo::Oceania), ZelaServerRegion::Tokyo);
    assert_eq!(nearest_region(LeaderGeo::MiddleEast), ZelaServerRegion::Dubai);
    assert_eq!(nearest_region(LeaderGeo::Africa), ZelaServerRegion::Dubai);
    assert_eq!(nearest_region(LeaderGeo::Unknown), ZelaServerRegion::Dubai);
}

#[test]
fn conversions_match_the_functions() {
    assert_eq!(LeaderGeo::from(&IpAddress::V4(44, 1, 2, 3)), LeaderGeo::NorthAmerica);
    assert_eq!(ZelaServerRegion::from(&LeaderGeo::Europe), ZelaServerRegion::Frankfurt);
}

#[test]
fn labels() {
    assert_eq!(LeaderGeo::NorthAmerica.label(), "North America");
    assert_eq!(LeaderGeo::Africa.label(), "Asia");
    assert_eq!(LeaderGeo::Unknown.label(), "Unknown");
    assert_eq!(ZelaServerRegion::Frankfurt.label(), "Berlin");
    assert_eq!(ZelaServerRegion::NewYork.label(), "New York");
}

#[test]
fn prefix_tables() {
    assert_eq!(prefixes(LeaderGeo::NorthAmerica).len(), 25);
    assert_eq!(prefixes(LeaderGeo::SouthAmerica), vec![AddressPrefix { head: 186, next: Some(233) }]);
    assert!(prefixes(LeaderGeo::Africa).is_empty());
    assert!(matches_any(&prefixes(LeaderGeo::NorthAmerica), 44, 200));
    assert!(!matches_any(&prefixes(LeaderGeo::NorthAmerica), 45, 1));
}

#[test]
fn address_priority_gossip_first() {
    let c = ContactInfo {
        pubkey: "K".to_string(),
        gossip: Some(sock(1, 1, 1, 1)),
        rpc: Some(sock(2, 2, 2, 2)),
        tvu: Some(sock(3, 3, 3, 3)),
        tpu: Some(sock(4, 4, 4, 4)),
    };
    assert_eq!(get_ip_from_contact_info(&c), Some(sock(1, 1, 1, 1)));
}

#[test]
fn address_priority_falls_through() {
    let mut c = ContactInfo {
        pubkey: "K".to_string(),
        gossip: None,
        rpc: None,
        tvu: Some(sock(3, 3, 3, 3)),
        tpu: Some(sock(4, 4, 4, 4)),
    };
    assert_eq!(get_ip_from_contact_info(&c), Some(sock(3, 3, 3, 3)));
    c.tvu = None;
    assert_eq!(get_ip_from_contact_info(&c), Some(sock(4, 4, 4, 4)));
    c.tpu = None;
    assert_eq!(get_ip_from_contact_info(&c), None);
}

#[test]
fn closest_region_from_contact() {
    let c = contact("K", Some(sock(61, 111, 9, 9)));
    assert_eq!(
        get_closest_zela_server_region(&c, 7),
        Ok((ZelaServerRegion::Tokyo, LeaderGeo::Asia))
    );
    let none = contact("K", None);
    assert_eq!(
        get_closest_zela_server_region(&none, 7),
        Err(LocateError::NoAddressAvailable { slot: 7 })
    );
}

#[test]
fn find_contact_takes_first_match() {
    let contacts = vec![contact("A", None), contact("B", None), contact("B", None)];
    assert_eq!(find_contact(&contacts, &"B".to_string()), Some(1));
    assert_eq!(find_contact(&contacts, &"C".to_string()), None);
}

#[test]
fn locate_reports_leader_and_region() {
    let locator = LeaderLocator::reference();
    assert_eq!(locator.slot_duration_millis, SLOT_DURATION_MILLIS);
    let contacts = vec![
        contact("L1", Some(sock(44, 1, 2, 3))),
        contact("L2", Some(sock(61, 111, 9, 9))),
    ];
    let out = locator.locate(12, &rotation(&["L1", "L2"]), 250, &contacts).unwrap();
    assert_eq!(out.slot, 12);
    assert_eq!(out.leader, "L2");
    assert_eq!(out.leader_geo, "Asia");
    assert_eq!(out.closest_region, "Tokyo");
    let out = locator.locate(12, &rotation(&["L1", "L2"]), 50, &contacts).unwrap();
    assert_eq!(out.leader, "L1");
    assert_eq!(out.leader_geo, "North America");
    assert_eq!(out.closest_region, "New York");
}

#[test]
fn locate_errors() {
    let locator = LeaderLocator::new(400);
    let contacts = vec![contact("L1", None)];
    assert_eq!(
        locator.locate(3, &Vec::new(), 0, &contacts).unwrap_err(),
        LocateError::EmptyRotation
    );
    assert_eq!(
        locator.locate(3, &rotation(&["X"]), 0, &contacts).unwrap_err(),
        LocateError::ContactNotFound
    );
    assert_eq!(
        locator.locate(3, &rotation(&["L1"]), 0, &contacts).unwrap_err(),
        LocateError::NoAddressAvailable { slot: 3 }
    );
}

#[test]
fn locate_uses_configured_slot_length() {
    let contacts = vec![
        contact("L1", Some(sock(44, 1, 2, 3))),
        contact("L2", Some(sock(9, 9, 9, 9))),
    ];
    let out = LeaderLocator::new(1000).locate(1, &rotation(&["L1", "L2"]), 250, &contacts).unwrap();
    assert_eq!(out.leader, "L1");
    let out = LeaderLocator::new(400).locate(1, &rotation(&["L1", "L2"]), 250, &contacts).unwrap();
    assert_eq!(out.leader, "L2");
    assert_eq!(out.leader_geo, "Unknown");
    assert_eq!(out.closest_region, "Dubai");
}
