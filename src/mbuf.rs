//! A fixed-capacity packet buffer with a movable window: headers are taken
//! off its front while receiving and laid down in front of it while
//! transmitting.

use vstd::prelude::*;

verus! {

/// What a packet buffer holds: its storage, and the window
/// `data[offset .. offset + len]` of bytes currently in use.
pub ghost struct MbufView {
    pub data: Seq<u8>,
    pub offset: nat,
    pub len: nat,
}

impl MbufView {
    /// The bytes currently in the window.
    pub open spec fn window(self) -> Seq<u8> {
        self.data.subrange(self.offset as int, (self.offset + self.len) as int)
    }

    /// The buffer after the first `n` bytes of the window were taken off.
    pub open spec fn pulled(self, n: nat) -> MbufView {
        MbufView { data: self.data, offset: self.offset + n, len: (self.len - n) as nat }
    }

    /// The buffer after `bytes` were laid down just in front of the window.
    pub open spec fn pushed(self, bytes: Seq<u8>) -> MbufView {
        MbufView {
            data: self.data.subrange(0, self.offset - bytes.len()) + bytes + self.data.subrange(
                self.offset as int,
                self.data.len() as int,
            ),
            offset: (self.offset - bytes.len()) as nat,
            len: self.len + bytes.len(),
        }
    }
}

/// A packet buffer of `Mbuf::SIZE` bytes.
pub struct Mbuf {
    b: Vec<u8>,
    len: usize,
    offset: usize,
}

impl View for Mbuf {
    type V = MbufView;

    closed spec fn view(&self) -> MbufView {
        MbufView { data: self.b@, offset: self.offset as nat, len: self.len as nat }
    }
}

impl Mbuf {
    /// The capacity of every buffer: the largest frame handled.
    pub const SIZE: usize = 1500;

    /// The storage has the full capacity and the window lies inside it.
    pub open spec fn wf(&self) -> bool {
        &&& self@.data.len() == Mbuf::SIZE
        &&& self@.offset + self@.len <= Mbuf::SIZE
    }

    /// A zeroed buffer whose window is the whole storage.
    pub fn new() -> (r: Self)
        ensures
            r.wf(),
            r@.data == Seq::new(Mbuf::SIZE as nat, |i: int| 0u8),
            r@.offset == 0,
            r@.len == Mbuf::SIZE,
    {
        let mut b: Vec<u8> = Vec::new();
        let mut i: usize = 0;
        while i < Mbuf::SIZE
            invariant
                i <= Mbuf::SIZE,
                b@ == Seq::new(i as nat, |j: int| 0u8),
            decreases Mbuf::SIZE - i,
        {
            b.push(0u8);
            i = i + 1;
            assert(b@ =~= Seq::new(i as nat, |j: int| 0u8));
        }
        Mbuf { b, len: Mbuf::SIZE, offset: 0 }
    }

    /// The whole storage, to be filled with a received frame.
    pub fn get_mut_ref(&mut self) -> (r: &mut [u8])
        requires
            old(self).wf(),
        ensures
            r@ == old(self)@.data,
            final(self)@ == (MbufView { data: final(r)@, ..old(self)@ }),
    {
        self.b.as_mut_slice()
    }

    /// The number of bytes in the window.
    pub fn len(&self) -> (r: usize)
        ensures
            r == self@.len,
    {
        self.len
    }

    /// Sets the number of bytes in the window.
    pub fn set_len(&mut self, len: usize)
        requires
            old(self).wf(),
            old(self)@.offset + len <= Mbuf::SIZE,
        ensures
            final(self).wf(),
            final(self)@ == (MbufView { len: len as nat, ..old(self)@ }),
    {
        self.len = len;
    }

    /// Moves the start of the window.
    pub fn set_offset(&mut self, offset: usize)
        requires
            old(self).wf(),
            offset + old(self)@.len <= Mbuf::SIZE,
        ensures
            final(self).wf(),
            final(self)@ == (MbufView { offset: offset as nat, ..old(self)@ }),
    {
        self.offset = offset;
    }

    /// Takes the first `len` bytes off the window and returns them; returns
    /// `None`, and leaves the buffer as it was, when the window holds fewer.
    pub fn pull(&mut self, len: usize) -> (r: Option<Vec<u8>>)
        requires
            old(self).wf(),
        ensures
            final(self).wf(),
            r.is_some() == (len <= old(self)@.len),
            r.is_some() ==> r.unwrap()@ == old(self)@.window().subrange(0, len as int)
                && final(self)@ == old(self)@.pulled(len as nat),
            r.is_none() ==> final(self)@ == old(self)@,
    {
        if len > self.len {
            return None;
        }
        let mut out: Vec<u8> = Vec::new();
        let mut i: usize = 0;
        while i < len
            invariant
                self.wf(),
                len <= self.len,
                i <= len,
                out@ == self@.data.subrange(self.offset as int, self.offset + i),
            decreases len - i,
        {
            out.push(self.b[self.offset + i]);
            i = i + 1;
            assert(out@ =~= self@.data.subrange(self.offset as int, self.offset + i));
        }
        assert(out@ =~= old(self)@.window().subrange(0, len as int));
        self.len = self.len - len;
        self.offset = self.offset + len;
        Some(out)
    }

    /// Lays `bytes` down just in front of the window, which then starts with
    /// them; returns `false`, and leaves the buffer as it was, when there is
    /// not that much room in front of the window.
    pub fn push(&mut self, bytes: &[u8]) -> (ok: bool)
        requires
            old(self).wf(),
        ensures
            final(self).wf(),
            ok == (bytes@.len() <= old(self)@.offset),
            ok ==> final(self)@ == old(self)@.pushed(bytes@),
            !ok ==> final(self)@ == old(self)@,
    {
        if bytes.len() > self.offset {
            return false;
        }
        let start: usize = self.offset - bytes.len();
        let ghost d0 = self@.data;
        let mut i: usize = 0;
        while i < bytes.len()
            invariant
                self.wf(),
                start + bytes@.len() == self.offset,
                self.offset == old(self).offset,
                self.len == old(self).len,
                i <= bytes@.len(),
                self@.data.len() == d0.len(),
                forall|j: int| 0 <= j < start ==> self@.data[j] == d0[j],
                forall|j: int| start <= j < start + i ==> self@.data[j] == bytes@[j - start],
                forall|j: int| start + bytes@.len() <= j < d0.len() ==> self@.data[j] == d0[j],
            decreases bytes@.len() - i,
        {
            self.b.set(start + i, bytes[i]);
            i = i + 1;
        }
        assert(self@.data =~= old(self)@.pushed(bytes@).data);
        self.offset = start;
        self.len = self.len + bytes.len();
        true
    }
}

/// Taking `n` bytes off a window and laying the same bytes down again gives
/// back the buffer it started from, byte for byte.
pub proof fn lemma_pull_push_round_trip(m: MbufView, n: nat)
    requires
        m.offset + m.len <= m.data.len(),
        n <= m.len,
    ensures
        m.pulled(n).pushed(m.window().subrange(0, n as int)) == m,
        m.pulled(n).pushed(m.window().subrange(0, n as int)).window() == m.window(),
{
    let back = m.pulled(n).pushed(m.window().subrange(0, n as int));
    assert(back.data =~= m.data);
}

/// Laying bytes down in front of a window gives a window that starts with
/// them and goes on with what it held.
pub proof fn lemma_pushed_window(m: MbufView, bytes: Seq<u8>)
    requires
        m.offset + m.len <= m.data.len(),
        bytes.len() <= m.offset,
    ensures
        m.pushed(bytes).window() == bytes + m.window(),
{
    assert(m.pushed(bytes).window() =~= bytes + m.window());
}

} // verus!
