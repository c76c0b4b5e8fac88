use careful_resume::address::{common_subnet, IpAddr};

fn v6(last_of_prefix: u8, first_after: u8) -> IpAddr {
    let mut octets = [0u8; 16];
    octets[0] = 0x20;
    octets[1] = 0x01;
    octets[5] = last_of_prefix;
    octets[6] = first_after;
    IpAddr::V6(octets)
}

#[test]
fn ipv4_addresses_share_a_24_bit_subnet() {
    assert!(common_subnet(IpAddr::V4([192, 0, 2, 1]), IpAddr::V4([192, 0, 2, 254])));
    assert!(!common_subnet(IpAddr::V4([192, 0, 2, 1]), IpAddr::V4([192, 0, 3, 1])));
    assert!(!common_subnet(IpAddr::V4([192, 0, 2, 1]), IpAddr::V4([193, 0, 2, 1])));
}

#[test]
fn ipv6_addresses_share_a_48_bit_subnet() {
    assert!(common_subnet(v6(7, 0), v6(7, 255)));
    assert!(!common_subnet(v6(7, 0), v6(8, 0)));
}

#[test]
fn families_share_no_subnet() {
    assert!(!common_subnet(IpAddr::V4([0, 0, 0, 0]), IpAddr::V6([0; 16])));
    assert!(!common_subnet(IpAddr::V6([0; 16]), IpAddr::V4([0, 0, 0, 0])));
}

#[test]
fn sharing_a_subnet_is_an_equivalence() {
    let a = IpAddr::V4([10, 1, 2, 3]);
    let b = IpAddr::V4([10, 1, 2, 4]);
    let c = IpAddr::V4([10, 1, 2, 5]);
    assert!(common_subnet(a, a));
    assert_eq!(common_subnet(a, b), common_subnet(b, a));
    assert!(common_subnet(a, b) && common_subnet(b, c) && common_subnet(a, c));
}
