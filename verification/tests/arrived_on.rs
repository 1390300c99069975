use alo_agentd::arrived_on::{ArrivedOn, Here, Interface, NetworkIndex, the_network_of};

fn network(index: u32) -> ArrivedOn {
    ArrivedOn::TheNetwork(NetworkIndex::new(index).unwrap())
}

/// An IPv4 address from its four octets, read big-endian.
fn v4(a: u8, b: u8, c: u8, d: u8) -> u32 {
    u32::from_be_bytes([a, b, c, d])
}

/// This machine's address on the cable.
fn on_the_cable() -> u32 {
    v4(10, 65, 0, 1)
}

/// This machine's address on the other network.
fn on_the_other_network() -> u32 {
    v4(10, 65, 0, 3)
}

fn localhost() -> u32 {
    v4(127, 0, 0, 1)
}

fn interface(index: u32, name: &str, addresses: &[u32]) -> Interface {
    Interface {
        index,
        name: name.to_owned(),
        addresses: addresses.to_vec(),
    }
}

fn two_networks() -> Vec<Interface> {
    vec![
        interface(1, "lo", &[localhost()]),
        interface(3, "cable0", &[on_the_cable()]),
        interface(4, "other0", &[on_the_other_network()]),
    ]
}

fn arrived_at(here: u32) -> Here {
    Here::V4(here)
}

/// `::ffff:a.b.c.d`, the IPv6 address a dual-stack listener reports an IPv4
/// peer's connection at.
fn mapped(a: u32) -> Here {
    Here::V6(0xffff_0000_0000u128 | u128::from(a))
}

/// An IPv6 address from its eight segments.
fn v6(segments: [u16; 8]) -> Here {
    let mut value: u128 = 0;
    for segment in segments {
        value = (value << 16) | u128::from(segment);
    }
    Here::V6(value)
}

#[test]
fn a_connection_is_on_the_network_of_the_address_it_arrived_at() {
    let reported = two_networks();
    assert_eq!(
        the_network_of(arrived_at(on_the_cable()), &reported),
        network(3)
    );
    assert_eq!(
        the_network_of(arrived_at(on_the_other_network()), &reported),
        network(4)
    );
}

#[test]
fn an_address_on_two_interfaces_says_nothing() {
    let both = vec![
        interface(3, "cable0", &[on_the_cable()]),
        interface(4, "other0", &[on_the_cable()]),
    ];
    assert_eq!(
        the_network_of(arrived_at(on_the_cable()), &both),
        ArrivedOn::NothingCouldSay
    );
}

#[test]
fn an_address_no_interface_owns_says_nothing() {
    assert_eq!(
        the_network_of(arrived_at(v4(10, 65, 9, 9)), &two_networks()),
        ArrivedOn::NothingCouldSay
    );
    assert_eq!(
        the_network_of(
            arrived_at(on_the_cable()),
            &[interface(0, "nowhere", &[on_the_cable()])]
        ),
        ArrivedOn::NothingCouldSay
    );
    assert_eq!(
        the_network_of(arrived_at(on_the_cable()), &[]),
        ArrivedOn::NothingCouldSay
    );
}

#[test]
fn loopback_is_its_own_network() {
    assert_eq!(
        the_network_of(arrived_at(localhost()), &two_networks()),
        ArrivedOn::ItsOwnNetwork
    );
    assert_eq!(
        the_network_of(arrived_at(localhost()), &[]),
        ArrivedOn::ItsOwnNetwork
    );
}

#[test]
fn an_ipv6_address_names_its_own_network_and_a_mapped_one_does_not() {
    let link_local = v6([0xfe80, 0, 0, 0, 0x30a1, 0x06ff, 0xfe98, 0xb3c5]);
    assert_eq!(
        the_network_of(link_local, &two_networks()),
        ArrivedOn::ItsOwnNetwork
    );
    let global = v6([0x2001, 0x0db8, 0, 0, 0, 0, 0, 1]);
    assert_eq!(
        the_network_of(global, &two_networks()),
        ArrivedOn::ItsOwnNetwork
    );
    assert_eq!(
        the_network_of(mapped(on_the_cable()), &two_networks()),
        network(3)
    );
}

#[test]
fn all_of_loopback_is_loopback_and_a_mapped_loopback_too() {
    assert_eq!(
        the_network_of(arrived_at(v4(127, 255, 255, 255)), &[]),
        ArrivedOn::ItsOwnNetwork
    );
    assert_eq!(
        the_network_of(mapped(localhost()), &[]),
        ArrivedOn::ItsOwnNetwork
    );
    // Just outside loopback is an address like any other.
    assert_eq!(
        the_network_of(
            arrived_at(v4(128, 0, 0, 1)),
            &[interface(7, "wan0", &[v4(128, 0, 0, 1)])]
        ),
        network(7)
    );
}

#[test]
fn an_interface_with_several_addresses_owns_each_of_them() {
    let reported = vec![
        interface(2, "wifi0", &[v4(192, 168, 1, 7), v4(192, 168, 1, 8)]),
        interface(3, "cable0", &[on_the_cable()]),
    ];
    assert_eq!(
        the_network_of(arrived_at(v4(192, 168, 1, 8)), &reported),
        network(2)
    );
}

#[test]
fn an_interface_numbered_zero_is_no_interface() {
    assert_eq!(NetworkIndex::new(0), None);
    assert_eq!(NetworkIndex::new(4).unwrap().get(), 4);
}
