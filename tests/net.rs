use game_master::error::ErrorKind;
use game_master::net::{get_index, get_local_ip, splite_ip, InterfaceAddress};

#[test]
fn splits_dotted_quad() {
    assert_eq!(splite_ip("192.168.8.205").unwrap(), vec![192, 168, 8, 205]);
    assert_eq!(splite_ip("+1.02.0.255").unwrap(), vec![1, 2, 0, 255]);
    assert_eq!(splite_ip("7").unwrap(), vec![7]);
}

#[test]
fn split_rejects_bad_fields() {
    assert!(splite_ip("1.2.3.256").is_err());
    assert!(splite_ip("1..3").is_err());
    assert!(splite_ip("").is_err());
    assert!(splite_ip("a.b.c.d").is_err());
    assert!(splite_ip("1.2.3.-4").is_err());
    assert!(splite_ip(" 1.2.3.4").is_err());
}

#[test]
fn index_from_last_octet() {
    assert_eq!(get_index("10.0.0.205").unwrap(), 5);
    assert_eq!(get_index("10.0.0.200").unwrap(), 0);
    assert_eq!(get_index("10.0.0.255").unwrap(), 55);
}

#[test]
fn index_below_threshold_is_rejected() {
    let e = get_index("10.0.0.150").unwrap_err();
    assert_eq!(e.kind(), ErrorKind::InvalidHostAddress);
    assert!(get_index("10.0.0.199").is_err());
}

#[test]
fn index_of_malformed_address_is_rejected() {
    assert_eq!(get_index("10.0.205").unwrap_err().kind(), ErrorKind::InvalidHostAddress);
    assert_eq!(get_index("10.0.0.0.205").unwrap_err().kind(), ErrorKind::InvalidHostAddress);
    assert_eq!(get_index("host").unwrap_err().kind(), ErrorKind::InvalidHostAddress);
}

fn iface(name: &str, v4: bool, addr: &str) -> InterfaceAddress {
    InterfaceAddress { name: name.to_string(), is_ipv4: v4, address: addr.to_string() }
}

#[test]
fn local_ip_is_first_ipv4_of_the_interface() {
    let list = vec![
        iface("lo", true, "127.0.0.1"),
        iface("eth0", false, "fe80::1"),
        iface("eth0", true, "192.168.8.205"),
        iface("eth0", true, "192.168.8.206"),
    ];
    assert_eq!(get_local_ip(&list), Some("192.168.8.205".to_string()));
}

#[test]
fn local_ip_absent_without_the_interface() {
    let list = vec![iface("lo", true, "127.0.0.1"), iface("eth0", false, "fe80::1")];
    assert_eq!(get_local_ip(&list), None);
    assert_eq!(get_local_ip(&Vec::new()), None);
}
