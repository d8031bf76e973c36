//! The 28-byte ARP header, the address-resolution cache, and what a node
//! does with an ARP packet it receives.

use std::collections::HashMap;

use vstd::prelude::*;

use crate::errors::NetError;
use crate::ethernet::{EthernetHeader, EthernetType, MacAddress, ETHERNET_TYPE_IPV4};
use crate::ipv4::Ipv4Address;
use crate::mbuf::{lemma_pushed_window, Mbuf};
use crate::wire::{be16, be16_bytes, read_be16, write_be16};

verus! {

broadcast use vstd::std_specs::hash::group_hash_axioms;

/// The hardware type named in an ARP header.
#[derive(Debug, PartialEq, Eq, Structural)]
pub enum ArpHardwareType {
    Ethernet,
    /// Any other value, kept as it was read.
    Unsupported(u16),
}

pub const ARP_HARDWARE_ETHERNET: u16 = 0x0001;

impl ArpHardwareType {
    /// The hardware type that a field value names.
    pub open spec fn spec_from_u16(v: u16) -> ArpHardwareType {
        if v == ARP_HARDWARE_ETHERNET {
            ArpHardwareType::Ethernet
        } else {
            ArpHardwareType::Unsupported(v)
        }
    }

    /// The field value that stands for a hardware type.
    pub open spec fn spec_to_u16(self) -> u16 {
        match self {
            ArpHardwareType::Ethernet => ARP_HARDWARE_ETHERNET,
            ArpHardwareType::Unsupported(v) => v,
        }
    }

    /// Reads the hardware type from the first two bytes of `slice`.
    pub fn from_slice(slice: &[u8]) -> (r: Self)
        requires
            slice@.len() >= 2,
        ensures
            r == ArpHardwareType::spec_from_u16(be16(slice@[0], slice@[1])),
    {
        let v = read_be16(slice);
        if v == ARP_HARDWARE_ETHERNET {
            ArpHardwareType::Ethernet
        } else {
            ArpHardwareType::Unsupported(v)
        }
    }

    /// Writes the hardware type's field value into the first two bytes of
    /// `slice`.
    pub fn to_slice(&self, slice: &mut [u8])
        requires
            old(slice)@.len() >= 2,
        ensures
            final(slice)@ == be16_bytes(self.spec_to_u16()) + old(slice)@.subrange(
                2,
                old(slice)@.len() as int,
            ),
    {
        let v: u16 = match self {
            ArpHardwareType::Ethernet => ARP_HARDWARE_ETHERNET,
            ArpHardwareType::Unsupported(v) => *v,
        };
        write_be16(slice, v);
        assert(slice@ =~= be16_bytes(self.spec_to_u16()) + old(slice)@.subrange(
            2,
            old(slice)@.len() as int,
        ));
    }
}

/// What an ARP packet asks for.
#[derive(Debug, PartialEq, Eq, Structural)]
pub enum ArpOpcode {
    Request,
    Reply,
    /// Any other value, kept as it was read.
    Unsupported(u16),
}

pub const ARP_OP_REQUEST: u16 = 0x0001;

pub const ARP_OP_REPLY: u16 = 0x0002;

impl ArpOpcode {
    /// The opcode that a field value names.
    pub open spec fn spec_from_u16(v: u16) -> ArpOpcode {
        if v == ARP_OP_REQUEST {
            ArpOpcode::Request
        } else if v == ARP_OP_REPLY {
            ArpOpcode::Reply
        } else {
            ArpOpcode::Unsupported(v)
        }
    }

    /// The field value that stands for an opcode.
    pub open spec fn spec_to_u16(self) -> u16 {
        match self {
            ArpOpcode::Request => ARP_OP_REQUEST,
            ArpOpcode::Reply => ARP_OP_REPLY,
            ArpOpcode::Unsupported(v) => v,
        }
    }

    /// Reads the opcode from the first two bytes of `slice`.
    pub fn from_slice(slice: &[u8]) -> (r: Self)
        requires
            slice@.len() >= 2,
        ensures
            r == ArpOpcode::spec_from_u16(be16(slice@[0], slice@[1])),
    {
        let v = read_be16(slice);
        if v == ARP_OP_REQUEST {
            ArpOpcode::Request
        } else if v == ARP_OP_REPLY {
            ArpOpcode::Reply
        } else {
            ArpOpcode::Unsupported(v)
        }
    }

    /// Writes the opcode's field value into the first two bytes of `slice`.
    pub fn to_slice(&self, slice: &mut [u8])
        requires
            old(slice)@.len() >= 2,
        ensures
            final(slice)@ == be16_bytes(self.spec_to_u16()) + old(slice)@.subrange(
                2,
                old(slice)@.len() as int,
            ),
    {
        let v: u16 = match self {
            ArpOpcode::Request => ARP_OP_REQUEST,
            ArpOpcode::Reply => ARP_OP_REPLY,
            ArpOpcode::Unsupported(v) => *v,
        };
        write_be16(slice, v);
        assert(slice@ =~= be16_bytes(self.spec_to_u16()) + old(slice)@.subrange(
            2,
            old(slice)@.len() as int,
        ));
    }
}

/// An ARP header for Ethernet hardware.
#[derive(Debug)]
pub struct ArpHeader {
    /// Hardware type.
    pub hrd: ArpHardwareType,
    /// Protocol type.
    pub pro: EthernetType,
    /// Hardware address length, as read.
    pub hln: u8,
    /// Protocol address length, as read.
    pub pln: u8,
    /// Opcode.
    pub op: ArpOpcode,
    /// Sender link address.
    pub sha: MacAddress,
    /// Sender network address.
    pub spa: Ipv4Address,
    /// Target link address.
    pub tha: MacAddress,
    /// Target network address.
    pub tpa: Ipv4Address,
}

impl ArpHeader {
    pub const LENGTH: usize = 28;

    /// The first 28 bytes of `b` name a hardware type and a protocol type
    /// that are handled: Ethernet, and a protocol that has a name.
    pub open spec fn supported(b: Seq<u8>) -> bool {
        &&& be16(b[0], b[1]) == ARP_HARDWARE_ETHERNET
        &&& !(EthernetType::spec_from_u16(be16(b[2], b[3])) is Unsupported)
    }

    /// The header that the first 28 bytes of `b` say.
    pub open spec fn spec_decode(b: Seq<u8>) -> ArpHeader {
        ArpHeader {
            hrd: ArpHardwareType::spec_from_u16(be16(b[0], b[1])),
            pro: EthernetType::spec_from_u16(be16(b[2], b[3])),
            hln: b[4],
            pln: b[5],
            op: ArpOpcode::spec_from_u16(be16(b[6], b[7])),
            sha: MacAddress::spec_from_seq(b.subrange(8, 14)),
            spa: Ipv4Address::spec_from_seq(b.subrange(14, 18)),
            tha: MacAddress::spec_from_seq(b.subrange(18, 24)),
            tpa: Ipv4Address::spec_from_seq(b.subrange(24, 28)),
        }
    }

    /// The 28 bytes of an Ethernet/IPv4 header with the given opcode and
    /// addresses.
    pub open spec fn spec_encode(
        op: ArpOpcode,
        sha: MacAddress,
        spa: Ipv4Address,
        tha: MacAddress,
        tpa: Ipv4Address,
    ) -> Seq<u8> {
        be16_bytes(ARP_HARDWARE_ETHERNET) + be16_bytes(ETHERNET_TYPE_IPV4) + seq![6u8, 4u8]
            + be16_bytes(op.spec_to_u16()) + sha@ + spa@ + tha@ + tpa@
    }

    /// Takes a header off the front of the buffer's window. Fails with a
    /// parse error, leaving the buffer as it was, when the window holds
    /// fewer than 28 bytes; fails as unsupported, the 28 bytes being taken,
    /// when the hardware type is not Ethernet or the protocol type has no
    /// name.
    pub fn pull(mbuf: &mut Mbuf) -> (r: Result<Self, NetError>)
        requires
            old(mbuf).wf(),
        ensures
            final(mbuf).wf(),
            r is Ok <==> old(mbuf)@.len >= 28 && ArpHeader::supported(old(mbuf)@.window()),
            old(mbuf)@.len < 28 ==> (r matches Err(e) && e is ParseError),
            old(mbuf)@.len < 28 ==> final(mbuf)@ == old(mbuf)@,
            old(mbuf)@.len >= 28 ==> final(mbuf)@ == old(mbuf)@.pulled(28),
            old(mbuf)@.len >= 28 && !ArpHeader::supported(old(mbuf)@.window()) ==> (r matches Err(
                e,
            ) && e is UnsupportedError),
            r matches Ok(h) ==> h == ArpHeader::spec_decode(old(mbuf)@.window()),
    {
        let buf = match mbuf.pull(ArpHeader::LENGTH) {
            Some(buf) => buf,
            None => {
                return Err(NetError::ParseError("Invalid arp header"));
            },
        };
        let b = buf.as_slice();
        let hrd = ArpHardwareType::from_slice(b);
        if let ArpHardwareType::Unsupported(_) = hrd {
            return Err(NetError::UnsupportedError("Unsupported arp hardware"));
        }
        let pro = EthernetType::from_slice(&b[2..4]);
        if let EthernetType::Unsupported(_) = pro {
            return Err(NetError::UnsupportedError("Unsupported arp protocol"));
        }
        let h = ArpHeader {
            hrd,
            pro,
            hln: b[4],
            pln: b[5],
            op: ArpOpcode::from_slice(&b[6..8]),
            sha: MacAddress::from_slice(&b[8..14]),
            spa: Ipv4Address::from_slice(&b[14..18]),
            tha: MacAddress::from_slice(&b[18..24]),
            tpa: Ipv4Address::from_slice(&b[24..28]),
        };
        proof {
            let w = old(mbuf)@.window();
            let d = ArpHeader::spec_decode(w);
            MacAddress::lemma_from_seq_view(w.subrange(8, 14));
            MacAddress::lemma_from_seq_view(w.subrange(18, 24));
            Ipv4Address::lemma_from_seq_view(w.subrange(14, 18));
            Ipv4Address::lemma_from_seq_view(w.subrange(24, 28));
            assert(h.sha@ =~= d.sha@);
            assert(h.spa@ =~= d.spa@);
            assert(h.tha@ =~= d.tha@);
            assert(h.tpa@ =~= d.tpa@);
            MacAddress::lemma_view_eq(h.sha, d.sha);
            MacAddress::lemma_view_eq(h.tha, d.tha);
            Ipv4Address::lemma_view_eq(h.spa, d.spa);
            Ipv4Address::lemma_view_eq(h.tpa, d.tpa);
        }
        Ok(h)
    }

    /// Lays an Ethernet/IPv4 header with the given opcode and addresses down
    /// in front of the buffer's window. Fails with a parse error, leaving the
    /// buffer as it was, when there are fewer than 28 bytes of room in front
    /// of the window.
    pub fn push(
        mbuf: &mut Mbuf,
        op: ArpOpcode,
        sha: MacAddress,
        spa: Ipv4Address,
        tha: MacAddress,
        tpa: Ipv4Address,
    ) -> (r: Result<(), NetError>)
        requires
            old(mbuf).wf(),
        ensures
            final(mbuf).wf(),
            r is Ok <==> old(mbuf)@.offset >= 28,
            r is Ok ==> final(mbuf)@ == old(mbuf)@.pushed(
                ArpHeader::spec_encode(op, sha, spa, tha, tpa),
            ),
            r matches Err(e) ==> e is ParseError && final(mbuf)@ == old(mbuf)@,
    {
        let mut hdr: Vec<u8> = vec![0u8; 28];
        let (f_hrd, rest) = hdr.as_mut_slice().split_at_mut(2);
        let (f_pro, rest) = rest.split_at_mut(2);
        let (f_len, rest) = rest.split_at_mut(2);
        let (f_op, rest) = rest.split_at_mut(2);
        let (f_sha, rest) = rest.split_at_mut(6);
        let (f_spa, rest) = rest.split_at_mut(4);
        let (f_tha, f_tpa) = rest.split_at_mut(6);
        ArpHardwareType::Ethernet.to_slice(f_hrd);
        EthernetType::Ipv4.to_slice(f_pro);
        f_len[0] = MacAddress::LENGTH as u8;
        f_len[1] = Ipv4Address::LENGTH as u8;
        op.to_slice(f_op);
        sha.to_slice(f_sha);
        spa.to_slice(f_spa);
        tha.to_slice(f_tha);
        tpa.to_slice(f_tpa);
        assert(hdr@ =~= ArpHeader::spec_encode(op, sha, spa, tha, tpa));
        if mbuf.push(hdr.as_slice()) {
            Ok(())
        } else {
            Err(NetError::ParseError("Invalid arp header"))
        }
    }
}

/// The resolution cache: network addresses, by their 32-bit value, mapped to
/// link addresses. Each method has the cache to itself for its whole run,
/// so a merge and a put never interleave.
pub struct ArpCache {
    map: HashMap<u32, MacAddress>,
}

impl View for ArpCache {
    type V = Map<u32, MacAddress>;

    closed spec fn view(&self) -> Map<u32, MacAddress> {
        self.map@
    }
}

impl ArpCache {
    /// The cache after `put(ip, mac)`: the entry for `ip` is `mac`.
    pub open spec fn spec_put(c: Map<u32, MacAddress>, ip: Ipv4Address, mac: MacAddress) -> Map<
        u32,
        MacAddress,
    > {
        c.insert(ip.spec_key(), mac)
    }

    /// The cache after `merge(ip, mac)`: the entry for `ip` is refreshed to
    /// `mac` if there is one, and nothing changes otherwise.
    pub open spec fn spec_merge(c: Map<u32, MacAddress>, ip: Ipv4Address, mac: MacAddress) -> Map<
        u32,
        MacAddress,
    > {
        if c.contains_key(ip.spec_key()) {
            c.insert(ip.spec_key(), mac)
        } else {
            c
        }
    }

    /// An empty cache.
    pub fn new() -> (r: Self)
        ensures
            r@ == Map::<u32, MacAddress>::empty(),
    {
        ArpCache { map: HashMap::new() }
    }

    /// The link address that the cache holds for `ipv4_address`, if any.
    pub fn get(&mut self, ipv4_address: Ipv4Address) -> (r: Option<MacAddress>)
        ensures
            final(self)@ == old(self)@,
            r == (if old(self)@.contains_key(ipv4_address.spec_key()) {
                Some(old(self)@[ipv4_address.spec_key()])
            } else {
                None
            }),
    {
        let key = ipv4_address.key();
        match self.map.get(&key) {
            Some(v) => Some(*v),
            None => None,
        }
    }

    /// Sets the entry for `ipv4_address` to `mac_address`, whether there was
    /// one or not.
    pub fn put(&mut self, ipv4_address: Ipv4Address, mac_address: MacAddress)
        ensures
            final(self)@ == ArpCache::spec_put(old(self)@, ipv4_address, mac_address),
    {
        let key = ipv4_address.key();
        self.map.insert(key, mac_address);
    }

    /// Refreshes the entry for `ipv4_address` to `mac_address` if there is
    /// one, and says whether there was; creates none.
    pub fn merge(&mut self, ipv4_address: Ipv4Address, mac_address: MacAddress) -> (r: bool)
        ensures
            r == old(self)@.contains_key(ipv4_address.spec_key()),
            final(self)@ == ArpCache::spec_merge(old(self)@, ipv4_address, mac_address),
    {
        let key = ipv4_address.key();
        if self.map.contains_key(&key) {
            self.map.insert(key, mac_address);
            return true;
        }
        false
    }
}

/// What the cache becomes on a supported ARP packet `h` that reaches a node
/// whose network address is `ipv4_address`: the sender's entry is refreshed
/// in any case, and created when the packet is for this node.
pub open spec fn spec_learn(c: Map<u32, MacAddress>, h: ArpHeader, ipv4_address: Ipv4Address) -> Map<
    u32,
    MacAddress,
> {
    if h.tpa@ == ipv4_address@ {
        ArpCache::spec_put(c, h.spa, h.sha)
    } else {
        ArpCache::spec_merge(c, h.spa, h.sha)
    }
}

/// The 42-byte frame that answers a request from `sha`/`spa`: an Ethernet
/// header from this node to the sender, then an ARP reply from this node's
/// addresses to the sender's.
pub open spec fn spec_reply_frame(
    mac_address: MacAddress,
    ipv4_address: Ipv4Address,
    sha: MacAddress,
    spa: Ipv4Address,
) -> Seq<u8> {
    EthernetHeader::spec_encode(mac_address, sha, EthernetType::Arp) + ArpHeader::spec_encode(
        ArpOpcode::Reply,
        mac_address,
        ipv4_address,
        sha,
        spa,
    )
}

/// Lays the answer to `arp_header` down in front of the buffer's window: an
/// ARP reply from this node to the sender, inside an Ethernet header from
/// this node to the sender. Fails with a parse error when there are fewer
/// than 42 bytes of room in front of the window.
pub fn arp_tx(
    mac_address: MacAddress,
    ipv4_address: Ipv4Address,
    mbuf: &mut Mbuf,
    arp_header: ArpHeader,
) -> (r: Result<(), NetError>)
    requires
        old(mbuf).wf(),
    ensures
        final(mbuf).wf(),
        r is Ok <==> old(mbuf)@.offset >= 42,
        r is Ok ==> final(mbuf)@.window() == spec_reply_frame(
            mac_address,
            ipv4_address,
            arp_header.sha,
            arp_header.spa,
        ) + old(mbuf)@.window(),
        r is Ok ==> final(mbuf)@.offset == old(mbuf)@.offset - 42 && final(mbuf)@.len == old(
            mbuf,
        )@.len + 42,
        r matches Err(e) ==> e is ParseError,
        old(mbuf)@.offset < 28 ==> final(mbuf)@ == old(mbuf)@,
{
    let ghost m0 = mbuf@;
    match ArpHeader::push(
        mbuf,
        ArpOpcode::Reply,
        mac_address,
        ipv4_address,
        arp_header.sha,
        arp_header.spa,
    ) {
        Ok(()) => {},
        Err(e) => {
            return Err(e);
        },
    }
    let ghost m1 = mbuf@;
    let r = EthernetHeader::push(mbuf, mac_address, arp_header.sha, EthernetType::Arp);
    proof {
        let a = ArpHeader::spec_encode(
            ArpOpcode::Reply,
            mac_address,
            ipv4_address,
            arp_header.sha,
            arp_header.spa,
        );
        let e = EthernetHeader::spec_encode(mac_address, arp_header.sha, EthernetType::Arp);
        lemma_pushed_window(m0, a);
        if r is Ok {
            lemma_pushed_window(m1, e);
            assert(e + (a + m0.window()) =~= spec_reply_frame(
                mac_address,
                ipv4_address,
                arp_header.sha,
                arp_header.spa,
            ) + m0.window());
        }
    }
    r
}

/// What handling the ARP packet at the front of window `w` gives, for a node
/// with the given addresses: the cache `c1` that it leaves from `c0`, and
/// the result `r`.
pub open spec fn arp_rx_outcome(
    mac_address: MacAddress,
    ipv4_address: Ipv4Address,
    c0: Map<u32, MacAddress>,
    c1: Map<u32, MacAddress>,
    w: Seq<u8>,
    r: Result<Option<Mbuf>, NetError>,
) -> bool {
    if w.len() < 28 {
        &&& r matches Err(e) && e is ParseError
        &&& c1 == c0
    } else if !ArpHeader::supported(w) {
        &&& r matches Err(e) && e is UnsupportedError
        &&& c1 == c0
    } else {
        let h = ArpHeader::spec_decode(w);
        &&& c1 == spec_learn(c0, h, ipv4_address)
        &&& (h.tpa@ != ipv4_address@ ==> r matches Ok(None))
        &&& (h.tpa@ == ipv4_address@ && h.op is Request ==> (r matches Ok(Some(out)) && out.wf()
            && out@.offset == 0 && out@.len == 42 && out@.window() == spec_reply_frame(
            mac_address,
            ipv4_address,
            h.sha,
            h.spa,
        )))
        &&& (h.tpa@ == ipv4_address@ && h.op is Reply ==> r matches Ok(None))
        &&& (h.tpa@ == ipv4_address@ && h.op is Unsupported ==> (r matches Err(e)
            && e is UnsupportedError))
    }
}

/// Handles an ARP packet at the front of the buffer's window, for a node
/// with the given addresses. The sender's entry is refreshed in the cache,
/// and created when the packet is for this node; a request for this node
/// is answered with the reply frame that is returned, ready to send.
/// Fails with a parse error on a truncated header, and as unsupported on a
/// hardware or protocol type that is not handled (the cache untouched) or on
/// an unknown opcode for this node (the cache updated all the same).
pub fn arp_rx(
    mac_address: MacAddress,
    ipv4_address: Ipv4Address,
    cache: &mut ArpCache,
    mbuf: &mut Mbuf,
) -> (r: Result<Option<Mbuf>, NetError>)
    requires
        old(mbuf).wf(),
    ensures
        final(mbuf).wf(),
        arp_rx_outcome(mac_address, ipv4_address, old(cache)@, final(cache)@, old(mbuf)@.window(), r),
{
    let arp_header = ArpHeader::pull(mbuf)?;
    let merge = cache.merge(arp_header.spa, arp_header.sha);
    if arp_header.tpa != ipv4_address {
        return Ok(None);
    }
    if !merge {
        cache.put(arp_header.spa, arp_header.sha);
    }
    match arp_header.op {
        ArpOpcode::Request => {
            let mut mbuf_r = Mbuf::new();
            mbuf_r.set_len(0);
            mbuf_r.set_offset(EthernetHeader::LENGTH + ArpHeader::LENGTH);
            proof {
                assert(mbuf_r@.window() =~= Seq::<u8>::empty());
            }
            match arp_tx(mac_address, ipv4_address, &mut mbuf_r, arp_header) {
                Ok(()) => {},
                Err(e) => {
                    return Err(e);
                },
            }
            proof {
                assert(mbuf_r@.window() =~= spec_reply_frame(
                    mac_address,
                    ipv4_address,
                    arp_header.sha,
                    arp_header.spa,
                ));
            }
            Ok(Some(mbuf_r))
        },
        ArpOpcode::Reply => Ok(None),
        ArpOpcode::Unsupported(_) => Err(NetError::UnsupportedError("Unsupported arp opcode")),
    }
}

/// A merge into a cache that lacks the address reports `false` (whether the
/// cache held the address) and changes nothing; once the address has been
/// put, a merge reports `true` and the entry is the new link address.
pub proof fn lemma_merge_semantics(
    c: Map<u32, MacAddress>,
    ip: Ipv4Address,
    mac1: MacAddress,
    mac2: MacAddress,
)
    requires
        !c.contains_key(ip.spec_key()),
    ensures
        ArpCache::spec_merge(c, ip, mac1) == c,
        !ArpCache::spec_merge(c, ip, mac1).contains_key(ip.spec_key()),
        ArpCache::spec_put(ArpCache::spec_merge(c, ip, mac1), ip, mac1).contains_key(
            ip.spec_key(),
        ),
        ArpCache::spec_merge(ArpCache::spec_put(ArpCache::spec_merge(c, ip, mac1), ip, mac1), ip, mac2)[ip.spec_key()]
            == mac2,
{
}

} // verus!
