use netstack::arp::{arp_rx, arp_tx, ArpCache, ArpHeader, ArpOpcode};
use netstack::errors::NetError;
use netstack::ethernet::{ethernet_rx, EthernetHeader, EthernetType, MacAddress};
use netstack::ipv4::Ipv4Address;
use netstack::mbuf::Mbuf;

const NODE_MAC: MacAddress = MacAddress([0xAB; 6]);
const NODE_IP: Ipv4Address = Ipv4Address([10, 0, 0, 2]);
const PEER_MAC: MacAddress = MacAddress([0x11; 6]);
const PEER_IP: Ipv4Address = Ipv4Address([10, 0, 0, 1]);

fn primed(frame: &[u8]) -> Mbuf {
    let mut m = Mbuf::new();
    m.get_mut_ref()[..frame.len()].copy_from_slice(frame);
    m.set_len(frame.len());
    m
}

fn frame(ethernet_type: u16, op: u16, target_ip: [u8; 4]) -> Vec<u8> {
    let mut b = Vec::new();
    b.extend_from_slice(&[0x11; 6]);
    b.extend_from_slice(&[0xff; 6]);
    b.extend_from_slice(&ethernet_type.to_be_bytes());
    b.extend_from_slice(&[0x00, 0x01, 0x08, 0x00, 6, 4]);
    b.extend_from_slice(&op.to_be_bytes());
    b.extend_from_slice(&[0x11; 6]);
    b.extend_from_slice(&[10, 0, 0, 1]);
    b.extend_from_slice(&[0x00; 6]);
    b.extend_from_slice(&target_ip);
    b
}

#[test]
fn cache_get_put_on_fresh_cache() {
    let mut c = ArpCache::new();
    assert_eq!(c.get(PEER_IP), None);
    c.put(PEER_IP, PEER_MAC);
    assert_eq!(c.get(PEER_IP), Some(PEER_MAC));
    assert_eq!(c.get(NODE_IP), None);
    c.put(PEER_IP, NODE_MAC);
    assert_eq!(c.get(PEER_IP), Some(NODE_MAC));
}

#[test]
fn cache_merge_only_refreshes() {
    let mut c = ArpCache::new();
    let mac1 = MacAddress([1; 6]);
    let mac2 = MacAddress([2; 6]);
    assert!(!c.merge(PEER_IP, mac1));
    assert_eq!(c.get(PEER_IP), None);
    c.put(PEER_IP, mac1);
    assert!(c.merge(PEER_IP, mac2));
    assert_eq!(c.get(PEER_IP), Some(mac2));
}

#[test]
fn arp_request_for_us_is_answered() {
    let mut cache = ArpCache::new();
    let mut m = primed(&frame(0x0806, 1, [10, 0, 0, 2]));
    let reply = ethernet_rx(NODE_MAC, NODE_IP, &mut cache, &mut m).unwrap();
    assert_eq!(cache.get(PEER_IP), Some(PEER_MAC));
    let mut out = reply.expect("a reply frame");
    let eth = EthernetHeader::pull(&mut out).unwrap();
    assert_eq!(eth.src, NODE_MAC);
    assert_eq!(eth.dest, PEER_MAC);
    assert_eq!(eth.ethernet_type, EthernetType::Arp);
    let arp = ArpHeader::pull(&mut out).unwrap();
    assert_eq!(arp.op, ArpOpcode::Reply);
    assert_eq!(arp.sha, NODE_MAC);
    assert_eq!(arp.spa, NODE_IP);
    assert_eq!(arp.tha, PEER_MAC);
    assert_eq!(arp.tpa, PEER_IP);
    assert!(out.pull(1).is_none());
}

#[test]
fn arp_reply_frame_bytes() {
    let mut cache = ArpCache::new();
    let mut m = primed(&frame(0x0806, 1, [10, 0, 0, 2]));
    let mut out = ethernet_rx(NODE_MAC, NODE_IP, &mut cache, &mut m).unwrap().unwrap();
    let mut expected = Vec::new();
    expected.extend_from_slice(&[0xAB; 6]);
    expected.extend_from_slice(&[0x11; 6]);
    expected.extend_from_slice(&[0x08, 0x06, 0x00, 0x01, 0x08, 0x00, 6, 4, 0x00, 0x02]);
    expected.extend_from_slice(&[0xAB; 6]);
    expected.extend_from_slice(&[10, 0, 0, 2]);
    expected.extend_from_slice(&[0x11; 6]);
    expected.extend_from_slice(&[10, 0, 0, 1]);
    assert_eq!(out.pull(42).unwrap(), expected);
}

#[test]
fn arp_not_for_us_refreshes_only() {
    let mut cache = ArpCache::new();
    let mut m = primed(&frame(0x0806, 1, [10, 0, 0, 9]));
    let r = ethernet_rx(NODE_MAC, NODE_IP, &mut cache, &mut m).unwrap();
    assert!(r.is_none());
    assert_eq!(cache.get(PEER_IP), None);

    let mut cache = ArpCache::new();
    cache.put(PEER_IP, MacAddress([7; 6]));
    let mut m = primed(&frame(0x0806, 1, [10, 0, 0, 9]));
    let r = ethernet_rx(NODE_MAC, NODE_IP, &mut cache, &mut m).unwrap();
    assert!(r.is_none());
    assert_eq!(cache.get(PEER_IP), Some(PEER_MAC));
}

#[test]
fn arp_reply_for_us_is_learned_silently() {
    let mut cache = ArpCache::new();
    let mut m = primed(&frame(0x0806, 2, [10, 0, 0, 2]));
    let r = ethernet_rx(NODE_MAC, NODE_IP, &mut cache, &mut m).unwrap();
    assert!(r.is_none());
    assert_eq!(cache.get(PEER_IP), Some(PEER_MAC));
}

#[test]
fn arp_unsupported_opcode_after_cache_update() {
    let mut cache = ArpCache::new();
    let mut m = primed(&frame(0x0806, 3, [10, 0, 0, 2]));
    let r = ethernet_rx(NODE_MAC, NODE_IP, &mut cache, &mut m);
    assert!(matches!(r, Err(NetError::UnsupportedError(_))));
    assert_eq!(cache.get(PEER_IP), Some(PEER_MAC));
}

#[test]
fn other_protocols_are_unsupported() {
    for t in [0x0800u16, 0x86DD, 0x1234] {
        let mut cache = ArpCache::new();
        let mut m = primed(&frame(t, 1, [10, 0, 0, 2]));
        let r = ethernet_rx(NODE_MAC, NODE_IP, &mut cache, &mut m);
        assert!(matches!(r, Err(NetError::UnsupportedError(_))));
        assert_eq!(cache.get(PEER_IP), None);
    }
}

#[test]
fn truncated_frames_are_parse_errors() {
    let f = frame(0x0806, 1, [10, 0, 0, 2]);
    let mut cache = ArpCache::new();
    let mut m = primed(&f[..10]);
    assert!(matches!(ethernet_rx(NODE_MAC, NODE_IP, &mut cache, &mut m), Err(NetError::ParseError(_))));
    let mut m = primed(&f[..41]);
    assert!(matches!(ethernet_rx(NODE_MAC, NODE_IP, &mut cache, &mut m), Err(NetError::ParseError(_))));
    assert_eq!(cache.get(PEER_IP), None);
}

#[test]
fn arp_rx_without_ethernet_header() {
    let f = frame(0x0806, 1, [10, 0, 0, 2]);
    let mut cache = ArpCache::new();
    let mut m = primed(&f[14..]);
    let r = arp_rx(NODE_MAC, NODE_IP, &mut cache, &mut m).unwrap();
    assert!(r.is_some());
    assert_eq!(cache.get(PEER_IP), Some(PEER_MAC));
}

#[test]
fn arp_tx_needs_room_for_both_headers() {
    let mut m = primed(&frame(0x0806, 1, [10, 0, 0, 2])[14..]);
    let request = ArpHeader::pull(&mut m).unwrap();
    let mut small = Mbuf::new();
    small.set_len(0);
    small.set_offset(41);
    let r = arp_tx(NODE_MAC, NODE_IP, &mut small, request);
    assert!(matches!(r, Err(NetError::ParseError(_))));
}
