//! Capability sets on the words of a fetched [`CapUserData`]: reading one
//! class as a set, packing a set into words, and the in-memory changes that a
//! store then hands to the kernel.
use vstd::prelude::*;
use crate::abi::{
    check_base, cleared, high_word, is_base, join, low_word, mask_of, CapSet, CapUserData,
    CapsError,
};
use crate::capability::{bit_set, caps_of_mask, representable, Capability};
use crate::caps_set::CapsHashSet;

verus! {

/// Whether bit `i` of the 32-bit word `w` is set.
pub open spec fn bit32(w: u32, i: u32) -> bool {
    (w >> i) & 1u32 == 1u32
}

/// Whether every capability of `caps` has a bit in the 64-bit mask.
pub open spec fn all_representable(caps: Set<Capability>) -> bool {
    forall|c: Capability| caps.contains(c) ==> representable(c)
}

/// `d2` is `d` with class `s` replaced by exactly the capabilities `caps`,
/// the other classes left as they were.
pub open spec fn overwritten(d: CapUserData, d2: CapUserData, s: CapSet, caps: Set<Capability>) -> bool {
    &&& caps_of_mask(mask_of(d2, s)) == caps
    &&& forall|t: CapSet|
        t != s ==> low_word(d2, t) == low_word(d, t) && high_word(d2, t) == high_word(d, t)
}

/// Bit `i` of a joined mask is bit `i` of the low word below 32, and bit
/// `i - 32` of the high word from 32 on.
pub proof fn lemma_join_bits(lo: u32, hi: u32)
    ensures
        forall|i: u64|
            i < 64 ==> (#[trigger] bit_set(join(lo, hi), i) <==> if i < 32 {
                bit32(lo, i as u32)
            } else {
                bit32(hi, (i - 32) as u32)
            }),
{
    assert(forall|i: u64|
        i < 64 ==> (#[trigger] bit_set(((hi as u64) << 32u64) | (lo as u64), i) <==> if i < 32 {
            bit32(lo, i as u32)
        } else {
            bit32(hi, (i - 32) as u32)
        })) by (bit_vector);
}

/// Setting bit `k` of a word adds bit `k` and changes no other bit.
proof fn lemma_or_bit(w: u32, k: u32)
    requires
        k < 32,
    ensures
        forall|j: u32| j < 32 ==> (#[trigger] bit32(w | (1u32 << k), j) <==> bit32(w, j) || j == k),
{
    assert(forall|j: u32| j < 32 ==> (#[trigger] bit32(w | (1u32 << k), j) <==> bit32(w, j) || j == k))
        by (bit_vector)
        requires
            k < 32,
    ;
}

/// A zero mask holds no capability.
pub proof fn lemma_zero_mask_empty()
    ensures
        caps_of_mask(0u64) == Set::<Capability>::empty(),
{
    assert(forall|i: u64| i < 64 ==> !#[trigger] bit_set(0u64, i)) by (bit_vector);
    assert(caps_of_mask(0u64) =~= Set::<Capability>::empty());
}

/// The 64-bit mask of class `s`, rebuilt as `(high << 32) | low`; fails with
/// `UnsupportedSet` for a class that the structure does not carry.
pub fn mask(data: &CapUserData, s: CapSet) -> (r: Result<u64, CapsError>)
    ensures
        is_base(s) ==> r == Ok::<u64, CapsError>(mask_of(*data, s)),
        !is_base(s) ==> r == Err::<u64, CapsError>(CapsError::UnsupportedSet),
{
    let (lo, hi) = match s {
        CapSet::Effective => (data.effective_s0, data.effective_s1),
        CapSet::Permitted => (data.permitted_s0, data.permitted_s1),
        CapSet::Inheritable => (data.inheritable_s0, data.inheritable_s1),
        CapSet::Bounding | CapSet::Ambient => return Err(CapsError::UnsupportedSet),
    };
    Ok(((hi as u64) << 32u64) | (lo as u64))
}

/// Whether `cap` is in class `s` of `data`.
pub fn query(data: &CapUserData, s: CapSet, cap: Capability) -> (r: Result<bool, CapsError>)
    ensures
        is_base(s) ==> r == Ok::<bool, CapsError>(caps_of_mask(mask_of(*data, s)).contains(cap)),
        !is_base(s) ==> r == Err::<bool, CapsError>(CapsError::UnsupportedSet),
{
    let m = match mask(data, s) {
        Ok(m) => m,
        Err(e) => return Err(e),
    };
    if cap.index < 64 {
        let b = cap.bitmask();
        let k = cap.index as u64;
        assert((m & (1u64 << k) != 0) <==> bit_set(m, k)) by (bit_vector)
            requires
                k < 64,
        ;
        Ok(m & b != 0)
    } else {
        Ok(false)
    }
}

/// All capabilities in class `s` of `data`.
pub fn read_all(data: &CapUserData, s: CapSet) -> (r: Result<CapsHashSet, CapsError>)
    ensures
        is_base(s) ==> (r matches Ok(v) && v.wf() && v@ == caps_of_mask(mask_of(*data, s))),
        !is_base(s) ==> (r matches Err(CapsError::UnsupportedSet)),
{
    let m = match mask(data, s) {
        Ok(m) => m,
        Err(e) => return Err(e),
    };
    let mut res = CapsHashSet::new();
    let mut i: u8 = 0;
    while i < 64
        invariant
            i <= 64,
            res.wf(),
            res@ == Set::new(|c: Capability| c.index < i && bit_set(m, c.index as u64)),
        decreases 64 - i,
    {
        let c = Capability::new(i);
        let b = c.bitmask();
        let k = i as u64;
        assert((m & (1u64 << k) != 0) <==> bit_set(m, k)) by (bit_vector)
            requires
                k < 64,
        ;
        if m & b != 0 {
            res.insert(c);
        }
        assert(res@ =~= Set::new(|c: Capability| c.index < i + 1 && bit_set(m, c.index as u64)));
        i = i + 1;
    }
    assert(res@ =~= caps_of_mask(m));
    Ok(res)
}

/// The low and high words whose joined mask holds exactly the capabilities of
/// `value`; fails with `OversizedIndex` on a capability without a bit.
pub fn pack(value: &CapsHashSet) -> (r: Result<(u32, u32), CapsError>)
    requires
        value.wf(),
    ensures
        r is Ok <==> all_representable(value@),
        r matches Ok((lo, hi)) ==> caps_of_mask(join(lo, hi)) == value@,
        r matches Err(e) ==> exists|c: Capability|
            value@.contains(c) && !representable(c) && e == CapsError::OversizedIndex(c.index),
{
    let items = value.as_slice();
    let mut lo: u32 = 0;
    let mut hi: u32 = 0;
    let mut k: usize = 0;
    proof {
        assert(forall|j: u32| j < 32 ==> !#[trigger] bit32(0u32, j)) by (bit_vector);
    }
    while k < items.len()
        invariant
            k <= items@.len(),
            forall|c: Capability| value@.contains(c) <==> items@.contains(c),
            forall|t: int| 0 <= t < k ==> representable(#[trigger] items@[t]),
            forall|j: u32|
                j < 32 ==> (#[trigger] bit32(lo, j) <==> exists|t: int|
                    0 <= t < k && (#[trigger] items@[t]).index == j),
            forall|j: u32|
                j < 32 ==> (#[trigger] bit32(hi, j) <==> exists|t: int|
                    0 <= t < k && (#[trigger] items@[t]).index == j + 32),
        decreases items@.len() - k,
    {
        let c = items[k];
        if c.index < 32 {
            proof {
                lemma_or_bit(lo, c.index as u32);
            }
            lo = lo | (1u32 << c.index);
        } else if c.index < 64 {
            proof {
                lemma_or_bit(hi, (c.index - 32) as u32);
            }
            hi = hi | (1u32 << (c.index - 32));
        } else {
            assert(items@[k as int] == c);
            assert(items@.contains(c));
            assert(value@.contains(c) && !representable(c));
            return Err(CapsError::OversizedIndex(c.index));
        }
        assert forall|j: u32| j < 32 implies (bit32(lo, j) <==> exists|t: int|
            0 <= t < k + 1 && (#[trigger] items@[t]).index == j) by {
            if c.index as u32 == j {
                assert(items@[k as int].index == j);
            }
        }
        assert forall|j: u32| j < 32 implies (bit32(hi, j) <==> exists|t: int|
            0 <= t < k + 1 && (#[trigger] items@[t]).index == j + 32) by {
            if c.index as u32 == j + 32 {
                assert(items@[k as int].index == j + 32);
            }
        }
        k = k + 1;
    }
    proof {
        lemma_join_bits(lo, hi);
        assert forall|c: Capability| caps_of_mask(join(lo, hi)).contains(c) <==> value@.contains(c) by {
            if value@.contains(c) {
                let t = choose|t: int| 0 <= t < items@.len() && items@[t] == c;
                assert(representable(items@[t]));
                if c.index < 32 {
                    assert(bit32(lo, c.index as u32));
                } else {
                    assert(bit32(hi, (c.index - 32) as u32));
                }
            }
            if caps_of_mask(join(lo, hi)).contains(c) {
                if c.index < 32 {
                    assert(bit32(lo, c.index as u32));
                    let t = choose|t: int| 0 <= t < k && (#[trigger] items@[t]).index == c.index as u32;
                    assert(items@[t] == c);
                } else {
                    assert(bit32(hi, (c.index - 32) as u32));
                    let t = choose|t: int|
                        0 <= t < k && (#[trigger] items@[t]).index == (c.index - 32) as u32 + 32;
                    assert(items@[t] == c);
                }
            }
        }
        assert(caps_of_mask(join(lo, hi)) =~= value@);
        assert forall|c: Capability| value@.contains(c) implies representable(c) by {
            let t = choose|t: int| 0 <= t < items@.len() && items@[t] == c;
        }
    }
    Ok((lo, hi))
}

/// Replaces class `s` of `data` by exactly the capabilities of `value`,
/// leaving the other classes as they are. On failure `data` is unchanged.
pub fn overwrite(data: &mut CapUserData, s: CapSet, value: &CapsHashSet) -> (r: Result<(), CapsError>)
    requires
        value.wf(),
    ensures
        !is_base(s) ==> r == Err::<(), CapsError>(CapsError::UnsupportedSet),
        is_base(s) ==> (r is Ok <==> all_representable(value@)),
        is_base(s) ==> (r matches Err(e) ==> exists|c: Capability|
            value@.contains(c) && !representable(c) && e == CapsError::OversizedIndex(c.index)),
        r is Ok ==> overwritten(*old(data), *final(data), s, value@),
        r is Err ==> *final(data) == *old(data),
{
    if let Err(e) = check_base(s) {
        return Err(e);
    }
    let (lo, hi) = match pack(value) {
        Ok(w) => w,
        Err(e) => return Err(e),
    };
    match s {
        CapSet::Effective => {
            data.effective_s0 = lo;
            data.effective_s1 = hi;
        },
        CapSet::Permitted => {
            data.permitted_s0 = lo;
            data.permitted_s1 = hi;
        },
        _ => {
            data.inheritable_s0 = lo;
            data.inheritable_s1 = hi;
        },
    }
    Ok(())
}

/// Zeroes class `s` of `data`; clearing Permitted zeroes Effective as well.
pub fn clear_all(data: &mut CapUserData, s: CapSet) -> (r: Result<(), CapsError>)
    ensures
        is_base(s) ==> r is Ok && *final(data) == cleared(*old(data), s),
        !is_base(s) ==> r == Err::<(), CapsError>(CapsError::UnsupportedSet)
            && *final(data) == *old(data),
{
    match s {
        CapSet::Effective => {
            data.effective_s0 = 0;
            data.effective_s1 = 0;
        },
        CapSet::Permitted => {
            data.effective_s0 = 0;
            data.effective_s1 = 0;
            data.permitted_s0 = 0;
            data.permitted_s1 = 0;
        },
        CapSet::Inheritable => {
            data.inheritable_s0 = 0;
            data.inheritable_s1 = 0;
        },
        CapSet::Bounding | CapSet::Ambient => return Err(CapsError::UnsupportedSet),
    }
    Ok(())
}

/// The capabilities of class `s` in `d`.
pub open spec fn caps_of(d: CapUserData, s: CapSet) -> Set<Capability> {
    caps_of_mask(mask_of(d, s))
}

/// `d2` is what the kernel holds after adding (`add`) or removing `c` in
/// class `s` of `d`: `d` itself when the class already is as asked, else `d`
/// with the class overwritten by the changed set.
pub open spec fn modified(d: CapUserData, d2: CapUserData, s: CapSet, c: Capability, add: bool) -> bool {
    let cur = caps_of(d, s);
    if cur.contains(c) == add {
        d2 == d
    } else {
        overwritten(
            d,
            d2,
            s,
            if add {
                cur.insert(c)
            } else {
                cur.remove(c)
            },
        )
    }
}

/// What a query finds is what a read of the same data holds.
pub proof fn lemma_query_agrees_with_read(d: CapUserData, s: CapSet, c: Capability)
    requires
        is_base(s),
    ensures
        caps_of_mask(mask_of(d, s)).contains(c) <==> caps_of(d, s).contains(c),
        caps_of(d, s).contains(c) ==> representable(c),
{
}

/// After a capability is raised a query finds it, and after it is then
/// dropped a query no longer does.
pub proof fn lemma_raise_then_drop(
    d0: CapUserData,
    d1: CapUserData,
    d2: CapUserData,
    s: CapSet,
    c: Capability,
)
    requires
        is_base(s),
        representable(c),
        modified(d0, d1, s, c, true),
        modified(d1, d2, s, c, false),
    ensures
        caps_of(d1, s).contains(c),
        !caps_of(d2, s).contains(c),
{
}

/// Clearing Permitted leaves Effective empty.
pub proof fn lemma_clear_permitted_empties_effective(d: CapUserData)
    ensures
        caps_of(cleared(d, CapSet::Permitted), CapSet::Effective) == Set::<Capability>::empty(),
{
    let d2 = cleared(d, CapSet::Permitted);
    assert(join(0u32, 0u32) == 0u64) by (bit_vector);
    assert(mask_of(d2, CapSet::Effective) == join(0u32, 0u32));
    lemma_zero_mask_empty();
}

/// Reading a class back after overwriting it gives the set written.
pub proof fn lemma_overwrite_then_read(d: CapUserData, d2: CapUserData, s: CapSet, caps: Set<Capability>)
    requires
        is_base(s),
        overwritten(d, d2, s, caps),
    ensures
        caps_of(d2, s) == caps,
        all_representable(caps),
{
}

} // verus!
