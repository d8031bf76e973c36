//! Network-layer (IPv4) addresses.

use vstd::prelude::*;

verus! {

/// A four-byte network address, kept in wire order.
#[derive(Debug, Hash, Copy, Clone)]
pub struct Ipv4Address(pub [u8; 4]);

impl View for Ipv4Address {
    type V = Seq<u8>;

    open spec fn view(&self) -> Seq<u8> {
        self.0@
    }
}

impl PartialEq for Ipv4Address {
    fn eq(&self, o: &Ipv4Address) -> (r: bool) {
        let r = self.0[0] == o.0[0] && self.0[1] == o.0[1] && self.0[2] == o.0[2] && self.0[3]
            == o.0[3];
        proof {
            if r {
                assert(self@ =~= o@);
            }
        }
        r
    }
}

impl vstd::std_specs::cmp::PartialEqSpecImpl for Ipv4Address {
    open spec fn obeys_eq_spec() -> bool {
        true
    }

    open spec fn eq_spec(&self, o: &Ipv4Address) -> bool {
        self@ == o@
    }
}

impl Eq for Ipv4Address {}

impl Ipv4Address {
    pub const LENGTH: usize = 4;

    /// The address whose bytes are the first four of `s`.
    pub open spec fn spec_from_seq(s: Seq<u8>) -> Ipv4Address {
        Ipv4Address([s[0], s[1], s[2], s[3]])
    }

    /// An address is its bytes: two with the same bytes are the same.
    pub proof fn lemma_view_eq(a: Ipv4Address, b: Ipv4Address)
        requires
            a@ == b@,
        ensures
            a == b,
    {
        broadcast use vstd::array::group_array_axioms;

        assert(a.0 =~= b.0);
    }

    /// The address built from four bytes has those bytes.
    pub proof fn lemma_from_seq_view(s: Seq<u8>)
        requires
            s.len() == 4,
        ensures
            Ipv4Address::spec_from_seq(s)@ == s,
    {
        broadcast use vstd::array::group_array_axioms;

        assert(Ipv4Address::spec_from_seq(s)@ =~= s);
    }

    /// The address as one 32-bit number, first byte most significant.
    pub open spec fn spec_key(self) -> u32 {
        (self@[0] as int * 0x1000000 + self@[1] as int * 0x10000 + self@[2] as int * 0x100
            + self@[3] as int) as u32
    }

    /// Reads an address from the first four bytes of `slice`.
    pub fn from_slice(slice: &[u8]) -> (r: Self)
        requires
            slice@.len() >= 4,
        ensures
            r@ == slice@.subrange(0, 4),
    {
        let r = Ipv4Address([slice[0], slice[1], slice[2], slice[3]]);
        assert(r@ =~= slice@.subrange(0, 4));
        r
    }

    /// Writes the address into `slice`, which holds exactly four bytes.
    pub fn to_slice(&self, slice: &mut [u8])
        requires
            old(slice)@.len() == 4,
        ensures
            final(slice)@ == self@,
    {
        let mut i: usize = 0;
        while i < 4
            invariant
                0 <= i <= 4,
                slice@.len() == 4,
                forall|j: int| 0 <= j < i ==> slice@[j] == self@[j],
            decreases 4 - i,
        {
            slice[i] = self.0[i];
            i = i + 1;
        }
        assert(slice@ =~= self@);
    }

    /// The address as one 32-bit number, first byte most significant; the
    /// resolution cache is keyed by it.
    pub fn key(&self) -> (r: u32)
        ensures
            r == self.spec_key(),
    {
        (self.0[0] as u32) * 0x1000000 + (self.0[1] as u32) * 0x10000 + (self.0[2] as u32) * 0x100
            + (self.0[3] as u32)
    }
}

} // verus!
