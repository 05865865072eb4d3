//! The capability operations as steps between kernel calls.
//!
//! Each operation starts with a function named after it, which returns the
//! operation's state and the first [`Action`]. The caller performs a `Fetch`
//! (`capget`) or a `Store` (`capset`), hands the outcome back through
//! [`Operation::resume`], and goes on until the action is `Finish`.
use vstd::prelude::*;
use crate::abi::{
    check_base, check_ret, cleared, header, header_for, is_base, mask_of, CapSet, CapUserData,
    CapUserHeader, CapsError,
};
use crate::capability::{caps_of_mask, representable, Capability};
use crate::caps_set::CapsHashSet;
use crate::words::{all_representable, clear_all, overwrite, overwritten, pack, query, read_all};

verus! {

/// What an operation waits for.
#[derive(Debug)]
pub enum Stage {
    /// The fetch whose class is asked whether it holds the capability.
    Query(Capability),
    /// The fetch whose class is read out as a set.
    ReadAll,
    /// The fetch whose class is then zeroed and stored.
    ClearAll,
    /// The fetch whose class is then replaced by the set and stored.
    Overwrite(CapsHashSet),
    /// The fetch that decides whether the capability is added (`true`) or
    /// removed (`false`).
    Modify(Capability, bool),
    /// The outcome of the store.
    AwaitStore,
    /// Nothing: the operation has finished.
    Over,
}

/// An operation on class `cset` of thread `tid`.
#[derive(Debug)]
pub struct Operation {
    pub tid: i32,
    pub cset: CapSet,
    pub stage: Stage,
}

/// What a finished operation returns.
#[derive(Debug)]
pub enum Reply {
    /// Whether the capability is held.
    Present(bool),
    /// The capabilities of the class.
    Caps(CapsHashSet),
    /// The change was made, or was not needed.
    Done,
}

/// What the caller does next.
#[derive(Debug)]
pub enum Action {
    /// Call `capget` with this header and report `Event::Fetched`.
    Fetch(CapUserHeader),
    /// Call `capset` with this header and data and report `Event::Stored`.
    Store(CapUserHeader, CapUserData),
    /// The operation is over with this result.
    Finish(Result<Reply, CapsError>),
}

/// The outcome of the kernel call that an action asked for.
#[derive(Debug)]
pub enum Event {
    /// `capget` returned this value and filled in this data.
    Fetched(i64, CapUserData),
    /// `capset` returned this value.
    Stored(i64),
}

impl Operation {
    /// The state an operation can be resumed from or has ended in.
    pub open spec fn wf(&self) -> bool {
        match self.stage {
            Stage::Over => true,
            Stage::Overwrite(v) => is_base(self.cset) && v.wf() && all_representable(v@),
            _ => is_base(self.cset),
        }
    }

    /// Whether the operation waits for the outcome of a `capget`.
    pub open spec fn awaits_fetch(&self) -> bool {
        !(self.stage is AwaitStore) && !(self.stage is Over)
    }
}

/// Starts at `stage` when `cset` is carried by the structure, with a fetch;
/// otherwise ends at once with `UnsupportedSet`, with no kernel call.
fn begin(tid: i32, cset: CapSet, stage: Stage) -> (r: (Operation, Action))
    ensures
        is_base(cset) ==> r.0 == (Operation { tid, cset, stage }) && r.1 == Action::Fetch(
            header_for(tid),
        ),
        !is_base(cset) ==> r.0.stage is Over && r.1 == Action::Finish(
            Err(CapsError::UnsupportedSet),
        ),
{
    match check_base(cset) {
        Ok(()) => (Operation { tid, cset, stage }, Action::Fetch(header(tid))),
        Err(e) => (Operation { tid, cset, stage: Stage::Over }, Action::Finish(Err(e))),
    }
}

/// Asks whether class `cset` of thread `tid` holds `cap`.
pub fn has_cap(tid: i32, cset: CapSet, cap: Capability) -> (r: (Operation, Action))
    ensures
        r.0.wf(),
        is_base(cset) ==> r.0 == (Operation { tid, cset, stage: Stage::Query(cap) }) && r.1
            == Action::Fetch(header_for(tid)),
        !is_base(cset) ==> r.0.stage is Over && r.1 == Action::Finish(
            Err(CapsError::UnsupportedSet),
        ),
{
    begin(tid, cset, Stage::Query(cap))
}

/// Reads class `cset` of thread `tid` as a set.
pub fn read(tid: i32, cset: CapSet) -> (r: (Operation, Action))
    ensures
        r.0.wf(),
        is_base(cset) ==> r.0 == (Operation { tid, cset, stage: Stage::ReadAll }) && r.1
            == Action::Fetch(header_for(tid)),
        !is_base(cset) ==> r.0.stage is Over && r.1 == Action::Finish(
            Err(CapsError::UnsupportedSet),
        ),
{
    begin(tid, cset, Stage::ReadAll)
}

/// Empties class `cset` of thread `tid`; emptying Permitted empties
/// Effective as well.
pub fn clear(tid: i32, cset: CapSet) -> (r: (Operation, Action))
    ensures
        r.0.wf(),
        is_base(cset) ==> r.0 == (Operation { tid, cset, stage: Stage::ClearAll }) && r.1
            == Action::Fetch(header_for(tid)),
        !is_base(cset) ==> r.0.stage is Over && r.1 == Action::Finish(
            Err(CapsError::UnsupportedSet),
        ),
{
    begin(tid, cset, Stage::ClearAll)
}

/// Removes `cap` from class `cset` of thread `tid`, storing only if it was
/// held.
pub fn drop(tid: i32, cset: CapSet, cap: Capability) -> (r: (Operation, Action))
    ensures
        r.0.wf(),
        is_base(cset) ==> r.0 == (Operation { tid, cset, stage: Stage::Modify(cap, false) })
            && r.1 == Action::Fetch(header_for(tid)),
        !is_base(cset) ==> r.0.stage is Over && r.1 == Action::Finish(
            Err(CapsError::UnsupportedSet),
        ),
{
    begin(tid, cset, Stage::Modify(cap, false))
}

/// Adds `cap` to class `cset` of thread `tid`, storing only if it was not
/// held.
pub fn raise(tid: i32, cset: CapSet, cap: Capability) -> (r: (Operation, Action))
    ensures
        r.0.wf(),
        is_base(cset) ==> r.0 == (Operation { tid, cset, stage: Stage::Modify(cap, true) })
            && r.1 == Action::Fetch(header_for(tid)),
        !is_base(cset) ==> r.0.stage is Over && r.1 == Action::Finish(
            Err(CapsError::UnsupportedSet),
        ),
{
    begin(tid, cset, Stage::Modify(cap, true))
}

/// Replaces class `cset` of thread `tid` by exactly `value`. A capability
/// without a bit fails the operation before any kernel call.
pub fn set(tid: i32, cset: CapSet, value: CapsHashSet) -> (r: (Operation, Action))
    requires
        value.wf(),
    ensures
        r.0.wf(),
        !is_base(cset) ==> r.0.stage is Over && r.1 == Action::Finish(
            Err(CapsError::UnsupportedSet),
        ),
        is_base(cset) && all_representable(value@) ==> r.0 == (Operation {
            tid,
            cset,
            stage: Stage::Overwrite(value),
        }) && r.1 == Action::Fetch(header_for(tid)),
        is_base(cset) && !all_representable(value@) ==> r.0.stage is Over && exists|c: Capability|
            value@.contains(c) && !representable(c) && r.1 == Action::Finish(
                Err(CapsError::OversizedIndex(c.index)),
            ),
{
    if let Err(e) = check_base(cset) {
        return (Operation { tid, cset, stage: Stage::Over }, Action::Finish(Err(e)));
    }
    match pack(&value) {
        Ok(_) => (Operation { tid, cset, stage: Stage::Overwrite(value) }, Action::Fetch(header(tid))),
        Err(e) => (Operation { tid, cset, stage: Stage::Over }, Action::Finish(Err(e))),
    }
}

impl Operation {
    /// Takes the outcome of the kernel call that the last action asked for,
    /// and returns the next action.
    ///
    /// A non-zero return value of either call ends the operation with
    /// `SyscallFailure`. After a successful fetch of `d`:
    /// a query ends with whether `d`'s class holds the capability; a read ends
    /// with the class as a set; a clear stores `d` with the class zeroed; an
    /// overwrite stores `d` with the class replaced; a drop or raise ends at
    /// once when the class already is as asked, and otherwise fetches again
    /// to overwrite the class with the changed set. A successful store ends
    /// the operation.
    pub fn resume(&mut self, ev: Event) -> (r: Action)
        requires
            old(self).wf(),
            !(old(self).stage is Over),
            old(self).awaits_fetch() <==> ev is Fetched,
        ensures
            final(self).wf(),
            final(self).tid == old(self).tid,
            final(self).cset == old(self).cset,
            ev matches Event::Fetched(ret, _) ==> (ret != 0 ==> final(self).stage is Over && r
                == Action::Finish(Err(CapsError::SyscallFailure(ret)))),
            ev matches Event::Stored(ret) ==> final(self).stage is Over && (ret == 0 ==> r
                == Action::Finish(Ok(Reply::Done))) && (ret != 0 ==> r == Action::Finish(
                Err(CapsError::SyscallFailure(ret)),
            )),
            ev matches Event::Fetched(0, d) ==> match old(self).stage {
                Stage::Query(c) => final(self).stage is Over && r == Action::Finish(
                    Ok(Reply::Present(caps_of_mask(mask_of(d, old(self).cset)).contains(c))),
                ),
                Stage::ReadAll => final(self).stage is Over && (r matches Action::Finish(
                    Ok(Reply::Caps(v)),
                ) && v.wf() && v@ == caps_of_mask(mask_of(d, old(self).cset))),
                Stage::ClearAll => final(self).stage is AwaitStore && r == Action::Store(
                    header_for(old(self).tid),
                    cleared(d, old(self).cset),
                ),
                Stage::Overwrite(v) => final(self).stage is AwaitStore && (r matches Action::Store(
                    h,
                    d2,
                ) && h == header_for(old(self).tid) && overwritten(d, d2, old(self).cset, v@)),
                Stage::Modify(c, add) => {
                    let cur = caps_of_mask(mask_of(d, old(self).cset));
                    if cur.contains(c) == add {
                        final(self).stage is Over && r == Action::Finish(Ok(Reply::Done))
                    } else if add && !representable(c) {
                        final(self).stage is Over && r == Action::Finish(
                            Err(CapsError::OversizedIndex(c.index)),
                        )
                    } else {
                        r == Action::Fetch(header_for(old(self).tid)) && (final(self).stage matches Stage::Overwrite(v)
                            && v@ == (if add {
                            cur.insert(c)
                        } else {
                            cur.remove(c)
                        }))
                    }
                },
                _ => true,
            },
    {
        let tid = self.tid;
        let cset = self.cset;
        let mut stage = Stage::Over;
        std::mem::swap(&mut self.stage, &mut stage);
        let (ret, mut data) = match ev {
            Event::Stored(ret) => {
                return match check_ret(ret) {
                    Ok(()) => Action::Finish(Ok(Reply::Done)),
                    Err(e) => Action::Finish(Err(e)),
                };
            },
            Event::Fetched(ret, data) => (ret, data),
        };
        if let Err(e) = check_ret(ret) {
            return Action::Finish(Err(e));
        }
        match stage {
            Stage::Query(c) => match query(&data, cset, c) {
                Ok(b) => Action::Finish(Ok(Reply::Present(b))),
                Err(e) => Action::Finish(Err(e)),
            },
            Stage::ReadAll => match read_all(&data, cset) {
                Ok(v) => Action::Finish(Ok(Reply::Caps(v))),
                Err(e) => Action::Finish(Err(e)),
            },
            Stage::ClearAll => match clear_all(&mut data, cset) {
                Ok(()) => {
                    self.stage = Stage::AwaitStore;
                    Action::Store(header(tid), data)
                },
                Err(e) => Action::Finish(Err(e)),
            },
            Stage::Overwrite(v) => match overwrite(&mut data, cset, &v) {
                Ok(()) => {
                    self.stage = Stage::AwaitStore;
                    Action::Store(header(tid), data)
                },
                Err(e) => Action::Finish(Err(e)),
            },
            Stage::Modify(c, add) => {
                let mut cur = match read_all(&data, cset) {
                    Ok(v) => v,
                    Err(e) => return Action::Finish(Err(e)),
                };
                let changed = if add {
                    cur.insert(c)
                } else {
                    cur.remove(c)
                };
                if !changed {
                    Action::Finish(Ok(Reply::Done))
                } else if add && c.index >= 64 {
                    Action::Finish(Err(CapsError::OversizedIndex(c.index)))
                } else {
                    self.stage = Stage::Overwrite(cur);
                    Action::Fetch(header(tid))
                }
            },
            _ => Action::Finish(Ok(Reply::Done)),
        }
    }
}

} // verus!
