use snat_proxy::prefix::{Ipv6Net, PrefixError};

const DOC_NET: u128 = 0x2001_0db8_0000_0000_0000_0000_0000_0000;

#[test]
fn prefix_length_129_is_refused() {
    let r = Ipv6Net::from_addr_prefix(0, 129);
    assert_eq!(r.unwrap_err(), PrefixError::InvalidPrefixLength);
    let r = Ipv6Net::from_addr_prefix(DOC_NET, 255);
    assert_eq!(r.unwrap_err(), PrefixError::InvalidPrefixLength);
}

#[test]
fn host_bit_set_is_refused() {
    let r = Ipv6Net::from_addr_prefix(1, 64);
    assert_eq!(r.unwrap_err(), PrefixError::NonCanonicalAddress);
    let r = Ipv6Net::from_addr_prefix(DOC_NET | 0x100, 32);
    assert_eq!(r.unwrap_err(), PrefixError::NonCanonicalAddress);
    let r = Ipv6Net::from_addr_prefix(1 << 127, 0);
    assert_eq!(r.unwrap_err(), PrefixError::NonCanonicalAddress);
}

#[test]
fn valid_prefix_keeps_its_parts() {
    let n = Ipv6Net::from_addr_prefix(DOC_NET, 32).unwrap();
    assert_eq!(n.addr(), DOC_NET);
    assert_eq!(n.prefix_len(), 32);
}

#[test]
fn full_length_prefix_takes_any_address() {
    let n = Ipv6Net::from_addr_prefix(DOC_NET | 1, 128).unwrap();
    assert_eq!(n.addr(), DOC_NET | 1);
    assert!(n.contains_addr(DOC_NET | 1));
    assert!(!n.contains_addr(DOC_NET));
}

#[test]
fn mask_of_full_length_is_all_ones() {
    let n = Ipv6Net::from_addr_prefix(u128::MAX, 128).unwrap();
    assert_eq!(n.subnet_mask(), u128::MAX);
}

#[test]
fn mask_of_zero_length_is_all_zeros() {
    let n = Ipv6Net::from_addr_prefix(0, 0).unwrap();
    assert_eq!(n.subnet_mask(), 0);
    assert!(n.contains_addr(0));
    assert!(n.contains_addr(u128::MAX));
}

#[test]
fn mask_of_32_bits() {
    let n = Ipv6Net::from_addr_prefix(DOC_NET, 32).unwrap();
    assert_eq!(n.subnet_mask(), 0xffff_ffff_0000_0000_0000_0000_0000_0000);
    let n = Ipv6Net::from_addr_prefix(DOC_NET, 1).unwrap_err();
    assert_eq!(n, PrefixError::NonCanonicalAddress);
    let n = Ipv6Net::from_addr_prefix(0, 1).unwrap();
    assert_eq!(n.subnet_mask(), 1 << 127);
}

#[test]
fn contains_addr_checks_network_bits() {
    let n = Ipv6Net::from_addr_prefix(DOC_NET, 32).unwrap();
    assert!(n.contains_addr(DOC_NET));
    assert!(n.contains_addr(DOC_NET | 0xdead_beef));
    assert!(!n.contains_addr(0x2001_0db9_0000_0000_0000_0000_0000_0001));
}
