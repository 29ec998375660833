//! Double buffering of finished frames: the front buffer is shown while the
//! back buffer is filled, then the two swap.

use vstd::prelude::*;

verus! {

/// Two byte buffers of `N` bytes each.
pub struct DoubleBuffer<const N: usize> {
    pub first: Vec<u8>,
    pub second: Vec<u8>,
    /// Which buffer is the front one (0 or 1).
    pub front: usize,
}

impl<const N: usize> DoubleBuffer<N> {
    pub open spec fn wf(&self) -> bool {
        self.first@.len() == N && self.second@.len() == N && self.front < 2
    }

    /// Contents of the front buffer.
    pub open spec fn front_spec(&self) -> Seq<u8> {
        if self.front == 0 { self.first@ } else { self.second@ }
    }

    /// Contents of the back buffer.
    pub open spec fn back_spec(&self) -> Seq<u8> {
        if self.front == 0 { self.second@ } else { self.first@ }
    }

    /// Two zeroed buffers, the first in front.
    pub fn new() -> (r: Self)
        ensures
            r.wf(),
            r.front == 0,
            r.front_spec() == Seq::new(N as nat, |i: int| 0u8),
            r.back_spec() == Seq::new(N as nat, |i: int| 0u8),
    {
        let r = DoubleBuffer { first: vec![0u8; N], second: vec![0u8; N], front: 0 };
        assert(r.first@ =~= Seq::new(N as nat, |i: int| 0u8));
        assert(r.second@ =~= Seq::new(N as nat, |i: int| 0u8));
        r
    }

    /// The front buffer.
    pub fn front(&self) -> (r: &[u8])
        ensures r@ == self.front_spec(),
    {
        if self.front == 0 { self.first.as_slice() } else { self.second.as_slice() }
    }

    /// The back buffer, to be filled; the front buffer is untouched.
    pub fn back_mut(&mut self) -> (r: &mut Vec<u8>)
        ensures
            *r == if old(self).front == 0 { old(self).second } else { old(self).first },
            final(self).front == old(self).front,
            old(self).front == 0 ==> final(self).first == old(self).first && final(self).second == *final(r),
            old(self).front != 0 ==> final(self).second == old(self).second && final(self).first == *final(r),
    {
        if self.front == 0 { &mut self.second } else { &mut self.first }
    }

    /// Copy `data` into the back buffer (at most `N` bytes, from its start).
    pub fn fill_back(&mut self, data: &[u8])
        requires old(self).wf(),
        ensures
            final(self).wf(),
            final(self).front == old(self).front,
            final(self).front_spec() == old(self).front_spec(),
            final(self).back_spec() == crate::memory::cartridge::ram_loaded(old(self).back_spec(), data@),
    {
        if self.front == 0 {
            crate::memory::cartridge::load_prefix(&mut self.second, data);
        } else {
            crate::memory::cartridge::load_prefix(&mut self.first, data);
        }
    }

    /// The buffers with front and back exchanged.
    pub open spec fn swapped(self) -> Self {
        DoubleBuffer { front: (1 - self.front) as usize, ..self }
    }

    /// Exchange front and back.
    pub fn swap(&mut self)
        requires old(self).wf(),
        ensures
            final(self).wf(),
            *final(self) == old(self).swapped(),
            final(self).front_spec() == old(self).back_spec(),
            final(self).back_spec() == old(self).front_spec(),
    {
        self.front = 1 - self.front;
    }
}

/// Swapping shows the back buffer and hides the front one; swapping again
/// restores the buffers as they were.
pub proof fn law_swap_twice<const N: usize>(b: DoubleBuffer<N>)
    requires b.wf(),
    ensures
        b.swapped().front_spec() == b.back_spec(),
        b.swapped().back_spec() == b.front_spec(),
        b.swapped().swapped() == b,
{
}

} // verus!
