//! The kernel's version-3 capability structures and the outcome of a call.
use vstd::prelude::*;

verus! {

/// Version tag of the ABI with two 32-bit words per capability class.
pub const CAPS_V3: u32 = 0x20080522;

/// Header handed to `capget` and `capset`: ABI version and target thread.
#[derive(Clone, Copy, Debug, PartialEq, Eq, Structural)]
pub struct CapUserHeader {
    /// ABI version understood by the caller.
    pub version: u32,
    /// Target thread; 0 means the calling thread.
    pub pid: i32,
}

/// The three capability classes as exchanged with the kernel, each a pair of
/// 32-bit words: `_s0` holds bits 0 to 31, `_s1` bits 32 to 63.
#[derive(Clone, Copy, Debug, PartialEq, Eq, Structural)]
pub struct CapUserData {
    pub effective_s0: u32,
    pub permitted_s0: u32,
    pub inheritable_s0: u32,
    pub effective_s1: u32,
    pub permitted_s1: u32,
    pub inheritable_s1: u32,
}

/// The capability sets a thread has. Only the first three are carried by
/// [`CapUserData`].
#[derive(Clone, Copy, Debug, PartialEq, Eq, Hash, Structural)]
pub enum CapSet {
    Effective,
    Permitted,
    Inheritable,
    Bounding,
    Ambient,
}

/// Why an operation failed.
#[derive(Clone, Copy, Debug, PartialEq, Eq, Structural)]
pub enum CapsError {
    /// `capget` or `capset` returned this non-zero value.
    SyscallFailure(i64),
    /// The set is not one of Effective, Permitted or Inheritable.
    UnsupportedSet,
    /// A capability's index does not fit in the 64-bit mask.
    OversizedIndex(u8),
}

/// Whether `s` is carried by [`CapUserData`].
pub open spec fn is_base(s: CapSet) -> bool {
    s == CapSet::Effective || s == CapSet::Permitted || s == CapSet::Inheritable
}

/// The header for thread `tid` with the version-3 tag.
pub open spec fn header_for(tid: i32) -> CapUserHeader {
    CapUserHeader { version: CAPS_V3, pid: tid }
}

/// A header for thread `tid` with the version-3 tag.
pub fn header(tid: i32) -> (r: CapUserHeader)
    ensures
        r == header_for(tid),
{
    CapUserHeader { version: CAPS_V3, pid: tid }
}

/// All words zero.
pub fn empty_data() -> (r: CapUserData)
    ensures
        r == (CapUserData {
            effective_s0: 0,
            permitted_s0: 0,
            inheritable_s0: 0,
            effective_s1: 0,
            permitted_s1: 0,
            inheritable_s1: 0,
        }),
{
    CapUserData {
        effective_s0: 0,
        permitted_s0: 0,
        inheritable_s0: 0,
        effective_s1: 0,
        permitted_s1: 0,
        inheritable_s1: 0,
    }
}

/// The outcome of a `capget` or `capset` that returned `ret`: success
/// exactly when it is zero, otherwise the raw value is reported.
pub fn check_ret(ret: i64) -> (r: Result<(), CapsError>)
    ensures
        ret == 0 ==> r == Ok::<(), CapsError>(()),
        ret != 0 ==> r == Err::<(), CapsError>(CapsError::SyscallFailure(ret)),
{
    if ret == 0 {
        Ok(())
    } else {
        Err(CapsError::SyscallFailure(ret))
    }
}

/// Fails with `UnsupportedSet` unless `s` is Effective, Permitted or
/// Inheritable.
pub fn check_base(s: CapSet) -> (r: Result<(), CapsError>)
    ensures
        is_base(s) <==> r is Ok,
        !is_base(s) ==> r == Err::<(), CapsError>(CapsError::UnsupportedSet),
{
    match s {
        CapSet::Effective | CapSet::Permitted | CapSet::Inheritable => Ok(()),
        CapSet::Bounding | CapSet::Ambient => Err(CapsError::UnsupportedSet),
    }
}

/// Low word (bits 0 to 31) of the class `s`; zero for a class not carried.
pub open spec fn low_word(d: CapUserData, s: CapSet) -> u32 {
    match s {
        CapSet::Effective => d.effective_s0,
        CapSet::Permitted => d.permitted_s0,
        CapSet::Inheritable => d.inheritable_s0,
        _ => 0,
    }
}

/// High word (bits 32 to 63) of the class `s`; zero for a class not carried.
pub open spec fn high_word(d: CapUserData, s: CapSet) -> u32 {
    match s {
        CapSet::Effective => d.effective_s1,
        CapSet::Permitted => d.permitted_s1,
        CapSet::Inheritable => d.inheritable_s1,
        _ => 0,
    }
}

/// The 64-bit mask made of a high and a low word.
pub open spec fn join(lo: u32, hi: u32) -> u64 {
    ((hi as u64) << 32u64) | (lo as u64)
}

/// The 64-bit mask of class `s` in `d`.
pub open spec fn mask_of(d: CapUserData, s: CapSet) -> u64 {
    join(low_word(d, s), high_word(d, s))
}

/// `d` with both words of class `s` zeroed, and for Permitted those of
/// Effective too.
pub open spec fn cleared(d: CapUserData, s: CapSet) -> CapUserData {
    match s {
        CapSet::Effective => CapUserData { effective_s0: 0, effective_s1: 0, ..d },
        CapSet::Permitted => CapUserData {
            effective_s0: 0,
            effective_s1: 0,
            permitted_s0: 0,
            permitted_s1: 0,
            ..d
        },
        CapSet::Inheritable => CapUserData { inheritable_s0: 0, inheritable_s1: 0, ..d },
        _ => d,
    }
}

} // verus!
