use peer_address::{Address, ServiceFlags, SocketEndpoint};

#[test]
fn serialize_address_test() {
    let address = Address {
        services: ServiceFlags::NETWORK(),
        address: [0, 0, 0, 0, 0, 0xffff, 0x0a00, 0x0001],
        port: 8333,
    };
    println!("{:?}", address);
    assert_eq!(
        format!("{:?}", address),
        "Address { services: ServiceFlags(1), address: [0, 0, 0, 0, 0, 65535, 2560, 1], port: 8333 }"
    );
}

#[test]
fn ipv4_endpoint_is_stored_mapped() {
    let socket = SocketEndpoint::V4 { octets: [192, 0, 2, 1], port: 8333 };
    let record = Address::new(&socket, ServiceFlags::NETWORK());
    assert_eq!(record.address, [0, 0, 0, 0, 0, 0xffff, 0xc000, 0x0201]);
    assert_eq!(record.port, 8333);
    assert_eq!(record.services, ServiceFlags::NETWORK());
}

#[test]
fn ipv4_groups_hold_the_octets_in_network_order() {
    let socket = SocketEndpoint::V4 { octets: [10, 0, 0, 1], port: 18333 };
    let record = Address::new(&socket, ServiceFlags::NONE());
    assert_eq!(record.address, [0, 0, 0, 0, 0, 0xffff, 0x0a00, 0x0001]);
    assert_eq!(record.address[6], (10 << 8) | 0);
    assert_eq!(record.address[7], (0 << 8) | 1);
    assert_eq!(record.port, 18333);
}

#[test]
fn ipv4_lowest_and_highest_endpoints() {
    let lowest = Address::new(&SocketEndpoint::V4 { octets: [0, 0, 0, 0], port: 0 }, ServiceFlags::NONE());
    assert_eq!(lowest.address, [0, 0, 0, 0, 0, 0xffff, 0, 0]);
    assert_eq!(lowest.port, 0);
    let highest = Address::new(
        &SocketEndpoint::V4 { octets: [255, 255, 255, 255], port: 65535 },
        ServiceFlags::NONE(),
    );
    assert_eq!(highest.address, [0, 0, 0, 0, 0, 0xffff, 0xffff, 0xffff]);
    assert_eq!(highest.port, 65535);
}

#[test]
fn ipv4_octets_do_not_mix() {
    let socket = SocketEndpoint::V4 { octets: [0x12, 0x34, 0x56, 0x78], port: 1 };
    let record = Address::new(&socket, ServiceFlags::NONE());
    assert_eq!(record.address[6], 0x1234);
    assert_eq!(record.address[7], 0x5678);
}

#[test]
fn ipv6_endpoint_is_stored_as_it_is() {
    let segments = [0x2001, 0x0db8, 0, 0, 0, 0, 0, 0x0001];
    let socket = SocketEndpoint::V6 { segments, port: 8333 };
    let record = Address::new(&socket, ServiceFlags::WITNESS());
    assert_eq!(record.address, segments);
    assert_eq!(record.port, 8333);
    assert_eq!(record.services, ServiceFlags::WITNESS());
}

#[test]
fn ipv6_edge_endpoints() {
    let unspecified = Address::new(&SocketEndpoint::V6 { segments: [0; 8], port: 0 }, ServiceFlags::NONE());
    assert_eq!(unspecified.address, [0; 8]);
    assert_eq!(unspecified.port, 0);
    let all_ones = Address::new(
        &SocketEndpoint::V6 { segments: [0xffff; 8], port: 65535 },
        ServiceFlags::NONE(),
    );
    assert_eq!(all_ones.address, [0xffff; 8]);
    assert_eq!(all_ones.port, 65535);
}

#[test]
fn both_families_give_one_stored_form() {
    let v4 = Address::new(&SocketEndpoint::V4 { octets: [192, 0, 2, 1], port: 8333 }, ServiceFlags::NETWORK());
    let v6 = Address::new(
        &SocketEndpoint::V6 { segments: [0, 0, 0, 0, 0, 0xffff, 0xc000, 0x0201], port: 8333 },
        ServiceFlags::NETWORK(),
    );
    assert_eq!(v4.address, v6.address);
    assert_eq!(v4.port, v6.port);
    assert_eq!(v4.services, v6.services);
}

#[test]
fn ipv4_octets_come_back_from_the_record() {
    let cases: [[u8; 4]; 5] = [[192, 0, 2, 1], [0, 0, 0, 0], [255, 255, 255, 255], [127, 0, 0, 1], [1, 2, 3, 4]];
    for octets in cases {
        let record = Address::new(&SocketEndpoint::V4 { octets, port: 8333 }, ServiceFlags::NETWORK());
        assert_eq!(record.to_ipv4_mapped(), Some(octets));
    }
}

#[test]
fn mapped_ipv6_endpoint_gives_its_octets() {
    let socket = SocketEndpoint::V6 { segments: [0, 0, 0, 0, 0, 0xffff, 0x0a00, 0x0001], port: 8333 };
    let record = Address::new(&socket, ServiceFlags::NONE());
    assert_eq!(record.to_ipv4_mapped(), Some([10, 0, 0, 1]));
}

#[test]
fn other_ipv6_addresses_hold_no_ipv4_address() {
    let plain = Address::new(
        &SocketEndpoint::V6 { segments: [0x2001, 0x0db8, 0, 0, 0, 0, 0, 1], port: 8333 },
        ServiceFlags::NONE(),
    );
    assert_eq!(plain.to_ipv4_mapped(), None);
    let compatible = Address::new(
        &SocketEndpoint::V6 { segments: [0, 0, 0, 0, 0, 0, 0xc000, 0x0201], port: 8333 },
        ServiceFlags::NONE(),
    );
    assert_eq!(compatible.to_ipv4_mapped(), None);
    let wrong_prefix = Address::new(
        &SocketEndpoint::V6 { segments: [0, 0, 0, 0, 1, 0xffff, 0xc000, 0x0201], port: 8333 },
        ServiceFlags::NONE(),
    );
    assert_eq!(wrong_prefix.to_ipv4_mapped(), None);
    let loopback = Address::new(
        &SocketEndpoint::V6 { segments: [0, 0, 0, 0, 0, 0, 0, 1], port: 8333 },
        ServiceFlags::NONE(),
    );
    assert_eq!(loopback.to_ipv4_mapped(), None);
}

#[test]
fn record_reports_the_services_it_was_built_with() {
    let socket = SocketEndpoint::V4 { octets: [192, 0, 2, 1], port: 8333 };
    let record = Address::new(&socket, ServiceFlags::NETWORK() | ServiceFlags::WITNESS());
    assert!(record.services.has(ServiceFlags::NETWORK()));
    assert!(record.services.has(ServiceFlags::WITNESS()));
    assert!(!record.services.has(ServiceFlags::GETUTXO()));
    assert!(!record.services.has(ServiceFlags::BLOOM()));
    assert!(!record.services.has(ServiceFlags::COMPACT_FILTERS()));
    assert!(!record.services.has(ServiceFlags::NETWORK_LIMITED()));
    assert!(!record.services.has(ServiceFlags::P2P_V2()));
    assert_eq!(record.services, ServiceFlags(0x9));
}

#[test]
fn record_keeps_unnamed_service_bits() {
    let services = ServiceFlags(1 << 63) | ServiceFlags::NETWORK();
    let record = Address::new(&SocketEndpoint::V6 { segments: [0; 8], port: 1 }, services);
    assert_eq!(record.services.0, (1 << 63) | 1);
}

#[test]
fn a_record_can_be_copied() {
    let record = Address::new(&SocketEndpoint::V4 { octets: [1, 2, 3, 4], port: 5 }, ServiceFlags::BLOOM());
    let copy = record;
    assert_eq!(copy.address, record.address);
    assert_eq!(copy.port, record.port);
    assert_eq!(copy.services, record.services);
}
