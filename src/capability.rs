//! Capability identifiers and their bit masks.
use vstd::prelude::*;

verus! {

/// A capability, identified by its bit index in the kernel's 64-bit masks.
///
/// Every index from 0 to 63 names a capability; a larger index is carried
/// through but cannot be represented in a mask.
#[derive(Clone, Copy, Debug, PartialEq, Eq, Hash, Structural)]
pub struct Capability {
    pub index: u8,
}

/// Number of capability bits the version-3 ABI can represent.
pub const CAP_BITS: u8 = 64;

/// Whether bit `i` of `m` is set.
pub open spec fn bit_set(m: u64, i: u64) -> bool {
    (m >> i) & 1u64 == 1u64
}

/// Whether `c` has a bit in the 64-bit mask space.
pub open spec fn representable(c: Capability) -> bool {
    c.index < CAP_BITS
}

/// The capabilities whose bits are set in `m`.
pub open spec fn caps_of_mask(m: u64) -> Set<Capability> {
    Set::new(|c: Capability| representable(c) && bit_set(m, c.index as u64))
}

impl Capability {
    /// The capability with bit index `index`.
    pub fn new(index: u8) -> (r: Capability)
        ensures
            r.index == index,
    {
        Capability { index }
    }

    /// The bit index of this capability.
    pub fn index(&self) -> (r: u8)
        ensures
            r == self.index,
    {
        self.index
    }

    /// The single-bit 64-bit mask of this capability.
    pub fn bitmask(&self) -> (r: u64)
        requires
            representable(*self),
        ensures
            r == 1u64 << self.index,
            forall|i: u64| i < 64 ==> (bit_set(r, i) <==> i == self.index),
    {
        let r: u64 = 1u64 << self.index;
        proof {
            let k = self.index as u64;
            assert(forall|i: u64| i < 64 ==> (bit_set(1u64 << k, i) <==> i == k)) by (bit_vector)
                requires k < 64;
        }
        r
    }
}

} // verus!
