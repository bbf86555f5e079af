//! Fixed-capacity byte storage addressed by logical offsets.
//!
//! Logical offset `p` lives in slot `p % capacity`, so any window of at most
//! `capacity` consecutive offsets names distinct slots even when it crosses the
//! physical end of the storage.
use vstd::prelude::*;

verus! {

/// Creating the storage failed (a zero capacity cannot be mapped).
#[derive(Debug, Clone, Copy, PartialEq, Eq, Structural)]
pub struct AllocationError;

pub struct RingBuffer {
    data: Vec<u8>,
}

/// Two offsets less than `c` apart fall in different slots.
pub proof fn lemma_slots_distinct(a: int, b: int, c: int)
    requires
        0 < c,
        0 <= b < a < b + c,
    ensures
        a % c != b % c,
{
    vstd::arithmetic::div_mod::lemma_fundamental_div_mod(a, c);
    vstd::arithmetic::div_mod::lemma_fundamental_div_mod(b, c);
    let qa = a / c;
    let qb = b / c;
    vstd::arithmetic::div_mod::lemma_mod_bound(a, c);
    vstd::arithmetic::div_mod::lemma_mod_bound(b, c);
    if a % c == b % c {
        assert(a - b == (qa - qb) * c) by (nonlinear_arith)
            requires
                a == c * qa + a % c,
                b == c * qb + b % c,
                a % c == b % c,
        ;
        if qa - qb <= 0 {
            assert((qa - qb) * c <= 0) by (nonlinear_arith)
                requires
                    qa - qb <= 0,
                    c > 0,
            ;
        } else {
            assert((qa - qb) * c >= c) by (nonlinear_arith)
                requires
                    qa - qb >= 1,
                    c > 0,
            ;
        }
    }
}

impl View for RingBuffer {
    type V = Seq<u8>;

    /// The physical slots.
    closed spec fn view(&self) -> Seq<u8> {
        self.data@
    }
}

impl RingBuffer {
    /// Storage of `capacity` zeroed slots; a zero capacity is refused.
    pub fn allocate(capacity: usize) -> (r: Result<RingBuffer, AllocationError>)
        ensures
            capacity == 0 <==> r is Err,
            r matches Ok(b) ==> b@ == Seq::new(capacity as nat, |i: int| 0u8),
    {
        if capacity == 0 {
            return Err(AllocationError);
        }
        let data = vec![0u8; capacity];
        proof {
            assert(data@ =~= Seq::new(capacity as nat, |i: int| 0u8));
        }
        Ok(RingBuffer { data })
    }

    pub fn capacity(&self) -> (r: usize)
        ensures
            r == self@.len(),
    {
        self.data.len()
    }

    /// The byte stored for logical offset `pos`.
    pub fn byte_at(&self, pos: u64) -> (r: u8)
        requires
            self@.len() > 0,
        ensures
            r == self@[pos as int % self@.len() as int],
    {
        let slot = (pos % (self.data.len() as u64)) as usize;
        self.data[slot]
    }

    /// Stores `b` for logical offset `pos`, leaving every other slot as it was.
    pub fn store(&mut self, pos: u64, b: u8)
        requires
            old(self)@.len() > 0,
        ensures
            final(self)@ == old(self)@.update(pos as int % old(self)@.len() as int, b),
    {
        let slot = (pos % (self.data.len() as u64)) as usize;
        self.data.set(slot, b);
    }
}

} // verus!
