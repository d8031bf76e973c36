use netstack::arp::{ArpHardwareType, ArpHeader, ArpOpcode};
use netstack::errors::NetError;
use netstack::ethernet::{EthernetHeader, EthernetType, MacAddress};
use netstack::ipv4::Ipv4Address;
use netstack::mbuf::Mbuf;

fn primed(frame: &[u8]) -> Mbuf {
    let mut m = Mbuf::new();
    m.get_mut_ref()[..frame.len()].copy_from_slice(frame);
    m.set_len(frame.len());
    m
}

fn tx_buffer(room: usize) -> Mbuf {
    let mut m = Mbuf::new();
    m.set_len(0);
    m.set_offset(room);
    m
}

#[test]
fn addresses_read_and_write_bytes() {
    let mac = MacAddress::from_slice(&[1, 2, 3, 4, 5, 6, 7]);
    assert_eq!(mac, MacAddress([1, 2, 3, 4, 5, 6]));
    let mut out = [0u8; 6];
    mac.to_slice(&mut out);
    assert_eq!(out, [1, 2, 3, 4, 5, 6]);
    let ip = Ipv4Address::from_slice(&[10, 0, 0, 2, 99]);
    assert_eq!(ip, Ipv4Address([10, 0, 0, 2]));
    let mut out4 = [0u8; 4];
    ip.to_slice(&mut out4);
    assert_eq!(out4, [10, 0, 0, 2]);
    assert_eq!(ip.key(), 0x0a000002);
    assert_ne!(ip, Ipv4Address([10, 0, 0, 1]));
    assert_ne!(mac, MacAddress([1, 2, 3, 4, 5, 7]));
}

#[test]
fn ethernet_type_field_values() {
    assert_eq!(EthernetType::from_slice(&[0x08, 0x00]), EthernetType::Ipv4);
    assert_eq!(EthernetType::from_slice(&[0x86, 0xDD]), EthernetType::Ipv6);
    assert_eq!(EthernetType::from_slice(&[0x08, 0x06, 0x55]), EthernetType::Arp);
    assert_eq!(EthernetType::from_slice(&[0x12, 0x34]), EthernetType::Unsupported(0x1234));
    let mut b = [0u8, 0, 0xaa];
    EthernetType::Ipv6.to_slice(&mut b);
    assert_eq!(b, [0x86, 0xDD, 0xaa]);
    EthernetType::Unsupported(0xBEEF).to_slice(&mut b);
    assert_eq!(b, [0xBE, 0xEF, 0xaa]);
}

#[test]
fn arp_field_values() {
    assert_eq!(ArpHardwareType::from_slice(&[0, 1]), ArpHardwareType::Ethernet);
    assert_eq!(ArpHardwareType::from_slice(&[0, 6]), ArpHardwareType::Unsupported(6));
    assert_eq!(ArpOpcode::from_slice(&[0, 1]), ArpOpcode::Request);
    assert_eq!(ArpOpcode::from_slice(&[0, 2]), ArpOpcode::Reply);
    assert_eq!(ArpOpcode::from_slice(&[0, 3]), ArpOpcode::Unsupported(3));
    let mut b = [0u8; 2];
    ArpOpcode::Reply.to_slice(&mut b);
    assert_eq!(b, [0, 2]);
    ArpHardwareType::Unsupported(0x0102).to_slice(&mut b);
    assert_eq!(b, [1, 2]);
}

#[test]
fn ethernet_round_trip_all_types() {
    let src = MacAddress([0x11, 0x22, 0x33, 0x44, 0x55, 0x66]);
    let dest = MacAddress([0xff; 6]);
    let types = [
        EthernetType::Ipv4,
        EthernetType::Ipv6,
        EthernetType::Arp,
        EthernetType::Unsupported(0x9000),
    ];
    for t in types {
        let mut m = tx_buffer(EthernetHeader::LENGTH);
        let expected = match &t {
            EthernetType::Ipv4 => EthernetType::Ipv4,
            EthernetType::Ipv6 => EthernetType::Ipv6,
            EthernetType::Arp => EthernetType::Arp,
            EthernetType::Unsupported(v) => EthernetType::Unsupported(*v),
        };
        EthernetHeader::push(&mut m, src, dest, t).unwrap();
        let h = EthernetHeader::pull(&mut m).unwrap();
        assert_eq!(h.src, src);
        assert_eq!(h.dest, dest);
        assert_eq!(h.ethernet_type, expected);
    }
}

#[test]
fn ethernet_push_wire_layout() {
    let mut m = tx_buffer(14);
    EthernetHeader::push(&mut m, MacAddress([1; 6]), MacAddress([2; 6]), EthernetType::Arp).unwrap();
    let bytes = m.pull(14).unwrap();
    assert_eq!(bytes, vec![1, 1, 1, 1, 1, 1, 2, 2, 2, 2, 2, 2, 0x08, 0x06]);
}

#[test]
fn ethernet_truncated_is_parse_error() {
    let mut m = primed(&[0u8; 13]);
    assert!(matches!(EthernetHeader::pull(&mut m), Err(NetError::ParseError(_))));
    let mut t = tx_buffer(13);
    let r = EthernetHeader::push(&mut t, MacAddress([1; 6]), MacAddress([2; 6]), EthernetType::Ipv4);
    assert!(matches!(r, Err(NetError::ParseError(_))));
}

fn arp_bytes(hrd: u16, pro: u16, op: u16) -> Vec<u8> {
    let mut b = Vec::new();
    b.extend_from_slice(&hrd.to_be_bytes());
    b.extend_from_slice(&pro.to_be_bytes());
    b.push(6);
    b.push(4);
    b.extend_from_slice(&op.to_be_bytes());
    b.extend_from_slice(&[0x11; 6]);
    b.extend_from_slice(&[10, 0, 0, 1]);
    b.extend_from_slice(&[0x22; 6]);
    b.extend_from_slice(&[10, 0, 0, 2]);
    b
}

#[test]
fn arp_decode_fields() {
    let mut m = primed(&arp_bytes(1, 0x0800, 1));
    let h = ArpHeader::pull(&mut m).unwrap();
    assert_eq!(h.hrd, ArpHardwareType::Ethernet);
    assert_eq!(h.pro, EthernetType::Ipv4);
    assert_eq!(h.hln, 6);
    assert_eq!(h.pln, 4);
    assert_eq!(h.op, ArpOpcode::Request);
    assert_eq!(h.sha, MacAddress([0x11; 6]));
    assert_eq!(h.spa, Ipv4Address([10, 0, 0, 1]));
    assert_eq!(h.tha, MacAddress([0x22; 6]));
    assert_eq!(h.tpa, Ipv4Address([10, 0, 0, 2]));
}

#[test]
fn arp_rejects_unsupported_hardware() {
    let mut m = primed(&arp_bytes(6, 0x0800, 1));
    assert!(matches!(ArpHeader::pull(&mut m), Err(NetError::UnsupportedError(_))));
}

#[test]
fn arp_rejects_unsupported_protocol() {
    let mut m = primed(&arp_bytes(1, 0x1234, 1));
    assert!(matches!(ArpHeader::pull(&mut m), Err(NetError::UnsupportedError(_))));
}

#[test]
fn arp_truncated_is_parse_error() {
    let b = arp_bytes(1, 0x0800, 1);
    let mut m = primed(&b[..27]);
    assert!(matches!(ArpHeader::pull(&mut m), Err(NetError::ParseError(_))));
    assert_eq!(m.pull(27).unwrap(), b[..27].to_vec());
}

#[test]
fn arp_encode_wire_layout() {
    let mut m = tx_buffer(28);
    ArpHeader::push(
        &mut m,
        ArpOpcode::Unsupported(0x0003),
        MacAddress([0x11; 6]),
        Ipv4Address([10, 0, 0, 1]),
        MacAddress([0x22; 6]),
        Ipv4Address([10, 0, 0, 2]),
    )
    .unwrap();
    assert_eq!(m.pull(28).unwrap(), arp_bytes(1, 0x0800, 3));
    let mut t = tx_buffer(27);
    let r = ArpHeader::push(
        &mut t,
        ArpOpcode::Reply,
        MacAddress([0x11; 6]),
        Ipv4Address([10, 0, 0, 1]),
        MacAddress([0x22; 6]),
        Ipv4Address([10, 0, 0, 2]),
    );
    assert!(matches!(r, Err(NetError::ParseError(_))));
}
