//! Link-layer (Ethernet) addresses and the 14-byte Ethernet header:
//! source address, destination address, protocol type.

use vstd::prelude::*;

use crate::arp::{arp_rx, arp_rx_outcome, ArpCache};
use crate::errors::NetError;
use crate::ipv4::Ipv4Address;
use crate::mbuf::{Mbuf, MbufView};
use crate::wire::{be16, be16_bytes, read_be16, write_be16};

verus! {

/// A six-byte link-layer address, kept in wire order.
#[derive(Debug, Hash, Copy, Clone)]
pub struct MacAddress(pub [u8; 6]);

impl View for MacAddress {
    type V = Seq<u8>;

    open spec fn view(&self) -> Seq<u8> {
        self.0@
    }
}

impl PartialEq for MacAddress {
    fn eq(&self, o: &MacAddress) -> (r: bool) {
        let mut i: usize = 0;
        while i < 6
            invariant
                i <= 6,
                forall|j: int| 0 <= j < i ==> self@[j] == o@[j],
            decreases 6 - i,
        {
            if self.0[i] != o.0[i] {
                return false;
            }
            i = i + 1;
        }
        assert(self@ =~= o@);
        true
    }
}

impl vstd::std_specs::cmp::PartialEqSpecImpl for MacAddress {
    open spec fn obeys_eq_spec() -> bool {
        true
    }

    open spec fn eq_spec(&self, o: &MacAddress) -> bool {
        self@ == o@
    }
}

impl Eq for MacAddress {}

impl MacAddress {
    pub const LENGTH: usize = 6;

    /// The address whose bytes are the first six of `s`.
    pub open spec fn spec_from_seq(s: Seq<u8>) -> MacAddress {
        MacAddress([s[0], s[1], s[2], s[3], s[4], s[5]])
    }

    /// An address is its bytes: two with the same bytes are the same.
    pub proof fn lemma_view_eq(a: MacAddress, b: MacAddress)
        requires
            a@ == b@,
        ensures
            a == b,
    {
        broadcast use vstd::array::group_array_axioms;

        assert(a.0 =~= b.0);
    }

    /// The address built from six bytes has those bytes.
    pub proof fn lemma_from_seq_view(s: Seq<u8>)
        requires
            s.len() == 6,
        ensures
            MacAddress::spec_from_seq(s)@ == s,
    {
        broadcast use vstd::array::group_array_axioms;

        assert(MacAddress::spec_from_seq(s)@ =~= s);
    }

    /// Reads an address from the first six bytes of `slice`.
    pub fn from_slice(slice: &[u8]) -> (r: Self)
        requires
            slice@.len() >= 6,
        ensures
            r@ == slice@.subrange(0, 6),
    {
        let r = MacAddress([slice[0], slice[1], slice[2], slice[3], slice[4], slice[5]]);
        assert(r@ =~= slice@.subrange(0, 6));
        r
    }

    /// Writes the address into `slice`, which holds exactly six bytes.
    pub fn to_slice(&self, slice: &mut [u8])
        requires
            old(slice)@.len() == 6,
        ensures
            final(slice)@ == self@,
    {
        let mut i: usize = 0;
        while i < 6
            invariant
                0 <= i <= 6,
                slice@.len() == 6,
                forall|j: int| 0 <= j < i ==> slice@[j] == self@[j],
            decreases 6 - i,
        {
            slice[i] = self.0[i];
            i = i + 1;
        }
        assert(slice@ =~= self@);
    }
}

/// The protocol carried in a frame, by the header's 16-bit type field.
#[derive(Debug, PartialEq, Eq, Structural)]
pub enum EthernetType {
    Ipv4,
    Ipv6,
    Arp,
    /// Any other value, kept as it was read.
    Unsupported(u16),
}

pub const ETHERNET_TYPE_IPV4: u16 = 0x0800;

pub const ETHERNET_TYPE_IPV6: u16 = 0x86DD;

pub const ETHERNET_TYPE_ARP: u16 = 0x0806;

impl EthernetType {
    /// The type that a field value names.
    pub open spec fn spec_from_u16(v: u16) -> EthernetType {
        if v == ETHERNET_TYPE_IPV4 {
            EthernetType::Ipv4
        } else if v == ETHERNET_TYPE_IPV6 {
            EthernetType::Ipv6
        } else if v == ETHERNET_TYPE_ARP {
            EthernetType::Arp
        } else {
            EthernetType::Unsupported(v)
        }
    }

    /// The field value that stands for a type.
    pub open spec fn spec_to_u16(self) -> u16 {
        match self {
            EthernetType::Ipv4 => ETHERNET_TYPE_IPV4,
            EthernetType::Ipv6 => ETHERNET_TYPE_IPV6,
            EthernetType::Arp => ETHERNET_TYPE_ARP,
            EthernetType::Unsupported(v) => v,
        }
    }

    /// An `Unsupported` value is none of the values that have a name.
    pub open spec fn wf(self) -> bool {
        match self {
            EthernetType::Unsupported(v) => v != ETHERNET_TYPE_IPV4 && v != ETHERNET_TYPE_IPV6
                && v != ETHERNET_TYPE_ARP,
            _ => true,
        }
    }

    /// Reads the type from the first two bytes of `slice`, most significant
    /// first.
    pub fn from_slice(slice: &[u8]) -> (r: Self)
        requires
            slice@.len() >= 2,
        ensures
            r == EthernetType::spec_from_u16(be16(slice@[0], slice@[1])),
            r.wf(),
    {
        let ethernet_type = read_be16(slice);
        if ethernet_type == ETHERNET_TYPE_IPV4 {
            EthernetType::Ipv4
        } else if ethernet_type == ETHERNET_TYPE_IPV6 {
            EthernetType::Ipv6
        } else if ethernet_type == ETHERNET_TYPE_ARP {
            EthernetType::Arp
        } else {
            EthernetType::Unsupported(ethernet_type)
        }
    }

    /// Writes the type's field value into the first two bytes of `slice`.
    pub fn to_slice(&self, slice: &mut [u8])
        requires
            old(slice)@.len() >= 2,
        ensures
            final(slice)@ == be16_bytes(self.spec_to_u16()) + old(slice)@.subrange(
                2,
                old(slice)@.len() as int,
            ),
    {
        let v: u16 = match self {
            EthernetType::Ipv4 => ETHERNET_TYPE_IPV4,
            EthernetType::Ipv6 => ETHERNET_TYPE_IPV6,
            EthernetType::Arp => ETHERNET_TYPE_ARP,
            EthernetType::Unsupported(v) => *v,
        };
        write_be16(slice, v);
        assert(slice@ =~= be16_bytes(self.spec_to_u16()) + old(slice)@.subrange(
            2,
            old(slice)@.len() as int,
        ));
    }
}

/// An Ethernet header.
#[derive(Debug)]
pub struct EthernetHeader {
    /// Source address.
    pub src: MacAddress,
    /// Destination address.
    pub dest: MacAddress,
    /// Type of the protocol carried.
    pub ethernet_type: EthernetType,
}

impl EthernetHeader {
    pub const LENGTH: usize = 14;

    /// The 14 bytes of a header: source, destination, then the type field.
    pub open spec fn spec_encode(src: MacAddress, dest: MacAddress, t: EthernetType) -> Seq<u8> {
        src@ + dest@ + be16_bytes(t.spec_to_u16())
    }

    /// This header is what the first 14 bytes of `b` say.
    pub open spec fn read_from(self, b: Seq<u8>) -> bool {
        &&& self.src@ == b.subrange(0, 6)
        &&& self.dest@ == b.subrange(6, 12)
        &&& self.ethernet_type == EthernetType::spec_from_u16(be16(b[12], b[13]))
    }

    /// Takes a header off the front of the buffer's window. Fails with a
    /// parse error, leaving the buffer as it was, when the window holds
    /// fewer than 14 bytes.
    pub fn pull(mbuf: &mut Mbuf) -> (r: Result<Self, NetError>)
        requires
            old(mbuf).wf(),
        ensures
            final(mbuf).wf(),
            r is Ok <==> old(mbuf)@.len >= 14,
            r matches Ok(h) ==> h.read_from(old(mbuf)@.window()) && h.ethernet_type.wf()
                && final(mbuf)@ == old(mbuf)@.pulled(14),
            r matches Err(e) ==> e is ParseError && final(mbuf)@ == old(mbuf)@,
    {
        let buf = match mbuf.pull(EthernetHeader::LENGTH) {
            Some(buf) => buf,
            None => {
                return Err(NetError::ParseError("Invalid ethernet header"));
            },
        };
        let bytes = buf.as_slice();
        let h = EthernetHeader {
            src: MacAddress::from_slice(bytes),
            dest: MacAddress::from_slice(&bytes[6..12]),
            ethernet_type: EthernetType::from_slice(&bytes[12..14]),
        };
        proof {
            assert(h.src@ =~= old(mbuf)@.window().subrange(0, 6));
            assert(h.dest@ =~= old(mbuf)@.window().subrange(6, 12));
        }
        Ok(h)
    }

    /// Lays a header with the given fields down in front of the buffer's
    /// window. Fails with a parse error, leaving the buffer as it was, when
    /// there are fewer than 14 bytes of room in front of the window.
    pub fn push(mbuf: &mut Mbuf, src: MacAddress, dest: MacAddress, ethernet_type: EthernetType) -> (r:
        Result<(), NetError>)
        requires
            old(mbuf).wf(),
        ensures
            final(mbuf).wf(),
            r is Ok <==> old(mbuf)@.offset >= 14,
            r is Ok ==> final(mbuf)@ == old(mbuf)@.pushed(
                EthernetHeader::spec_encode(src, dest, ethernet_type),
            ),
            r matches Err(e) ==> e is ParseError && final(mbuf)@ == old(mbuf)@,
    {
        let mut hdr: Vec<u8> = vec![0u8; 14];
        let (a, rest) = hdr.as_mut_slice().split_at_mut(6);
        let (b, c) = rest.split_at_mut(6);
        src.to_slice(a);
        dest.to_slice(b);
        ethernet_type.to_slice(c);
        assert(hdr@ =~= EthernetHeader::spec_encode(src, dest, ethernet_type));
        if mbuf.push(hdr.as_slice()) {
            Ok(())
        } else {
            Err(NetError::ParseError("Invalid ethernet header"))
        }
    }
}

/// Handles the frame in the buffer's window, for a node with the given
/// addresses: an ARP packet is handled as `arp_rx` does, and the reply frame
/// it may give is returned, ready to send. Fails with a parse error on a
/// truncated Ethernet header, and as unsupported on any other protocol; the
/// cache is then untouched.
pub fn ethernet_rx(
    mac_address: MacAddress,
    ipv4_address: Ipv4Address,
    cache: &mut ArpCache,
    mbuf: &mut Mbuf,
) -> (r: Result<Option<Mbuf>, NetError>)
    requires
        old(mbuf).wf(),
    ensures
        final(mbuf).wf(),
        old(mbuf)@.len < 14 ==> (r matches Err(e) && e is ParseError) && final(cache)@ == old(
            cache,
        )@,
        old(mbuf)@.len >= 14 ==> ({
            let w = old(mbuf)@.window();
            let t = EthernetType::spec_from_u16(be16(w[12], w[13]));
            &&& (t is Arp ==> arp_rx_outcome(
                mac_address,
                ipv4_address,
                old(cache)@,
                final(cache)@,
                w.subrange(14, w.len() as int),
                r,
            ))
            &&& (!(t is Arp) ==> (r matches Err(e) && e is UnsupportedError) && final(cache)@
                == old(cache)@)
        }),
{
    let ethernet_header = EthernetHeader::pull(mbuf)?;
    proof {
        assert(mbuf@.window() =~= old(mbuf)@.window().subrange(14, old(mbuf)@.window().len() as int));
    }
    match ethernet_header.ethernet_type {
        EthernetType::Ipv4 => Err(NetError::UnsupportedError("Ipv4 not implemented")),
        EthernetType::Ipv6 => Err(NetError::UnsupportedError("Ipv6 not implemented")),
        EthernetType::Arp => arp_rx(mac_address, ipv4_address, cache, mbuf),
        EthernetType::Unsupported(_) => Err(NetError::UnsupportedError("Unsupported protocol")),
    }
}

/// Laying a header down in front of a window and taking it off again gives
/// back the same fields, and the window as it was.
pub proof fn lemma_ethernet_round_trip(
    m: MbufView,
    src: MacAddress,
    dest: MacAddress,
    t: EthernetType,
    h: EthernetHeader,
)
    requires
        m.offset + m.len <= m.data.len(),
        m.offset >= 14,
        t.wf(),
        h.read_from(m.pushed(EthernetHeader::spec_encode(src, dest, t)).window()),
    ensures
        m.pushed(EthernetHeader::spec_encode(src, dest, t)).len >= 14,
        h.src@ == src@,
        h.dest@ == dest@,
        h.ethernet_type == t,
        m.pushed(EthernetHeader::spec_encode(src, dest, t)).pulled(14).window() == m.window(),
        m.pushed(EthernetHeader::spec_encode(src, dest, t)).pulled(14).offset == m.offset,
        m.pushed(EthernetHeader::spec_encode(src, dest, t)).pulled(14).len == m.len,
{
    let bytes = EthernetHeader::spec_encode(src, dest, t);
    let w = m.pushed(bytes).window();
    assert(w.subrange(0, 14) =~= bytes);
    assert(w.subrange(0, 6) =~= src@);
    assert(w.subrange(6, 12) =~= dest@);
    assert(m.pushed(bytes).pulled(14).window() =~= m.window());
}

} // verus!
