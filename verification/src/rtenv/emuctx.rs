//! The emulated execution context on x86_64: whether a thread runs Linux code, and which
//! thread-local base each side uses.

use vstd::prelude::*;

use crate::rtenv::thread::{ThreadCtx, TidMap};

verus! {

/// What the runtime keeps of a thread to switch between its native and its emulated side.
#[derive(Debug, Clone, Copy, PartialEq, Eq, Structural)]
pub struct ThreadInfo {
    pub native_gsbase: usize,
    pub in_emulated: bool,
}

impl ThreadInfo {
    /// A thread running natively with thread-local base `native_gsbase`.
    pub open spec fn new_spec(native_gsbase: usize) -> Self {
        ThreadInfo { native_gsbase, in_emulated: false }
    }

    pub fn new(native_gsbase: usize) -> (r: Self)
        ensures
            r == Self::new_spec(native_gsbase),
    {
        ThreadInfo { native_gsbase, in_emulated: false }
    }
}

/// The emulation information of a thread, as the rest of the runtime names it.
pub type EmulatedThreadInfo = ThreadInfo;

/// The emulation information of the threads of the process.
pub type ThreadInfoMap = TidMap<EmulatedThreadInfo>;

/// Registers the current thread `tid`, running natively with base `native_gsbase`.
pub fn enter_thread(map: &mut ThreadInfoMap, tid: i32, native_gsbase: usize)
    ensures
        final(map)@ == old(map)@.insert(tid, EmulatedThreadInfo::new_spec(native_gsbase)),
{
    map.insert(tid, EmulatedThreadInfo::new(native_gsbase));
}

/// Forgets the current thread `tid`.
pub fn exit_thread(map: &mut ThreadInfoMap, tid: i32)
    ensures
        final(map)@ == old(map)@.remove(tid),
{
    map.remove(tid);
}

/// Marks thread `tid` as running Linux code and answers the base to switch to: its emulated
/// base.
pub fn enter_emulated(map: &mut ThreadInfoMap, ctx: &ThreadCtx, tid: i32) -> (r: usize)
    requires
        old(map)@.contains_key(tid),
    ensures
        r == ctx.emulated_gsbase,
        final(map)@ == old(map)@.insert(
            tid,
            EmulatedThreadInfo { in_emulated: true, ..old(map)@[tid] },
        ),
{
    let info = map.get(tid).unwrap();
    map.insert(tid, EmulatedThreadInfo { in_emulated: true, ..info });
    ctx.emulated_gsbase
}

/// Marks thread `tid` as running natively and answers the base to switch to: its native base.
pub fn leave_emulated(map: &mut ThreadInfoMap, tid: i32) -> (r: usize)
    requires
        old(map)@.contains_key(tid),
    ensures
        r == old(map)@[tid].native_gsbase,
        final(map)@ == old(map)@.insert(
            tid,
            EmulatedThreadInfo { in_emulated: false, ..old(map)@[tid] },
        ),
{
    let info = map.get(tid).unwrap();
    map.insert(tid, EmulatedThreadInfo { in_emulated: false, ..info });
    info.native_gsbase
}

/// Whether thread `tid` runs Linux code.
pub fn in_emulated(map: &ThreadInfoMap, tid: i32) -> (r: bool)
    requires
        map@.contains_key(tid),
    ensures
        r == map@[tid].in_emulated,
{
    map.get(tid).unwrap().in_emulated
}

/// Sets the thread-local base that the thread's Linux code uses.
pub fn x86_64_set_emulated_gsbase(ctx: &mut ThreadCtx, new: usize)
    ensures
        *final(ctx) == (ThreadCtx { emulated_gsbase: new, ..*old(ctx) }),
{
    ctx.emulated_gsbase = new;
}

/// After a call that may have forked: in the new process, only the current thread remains,
/// with the information it had before (`snapshot`); elsewhere nothing changes.
pub fn may_fork(map: &mut ThreadInfoMap, is_new: bool, tid: i32, snapshot: EmulatedThreadInfo)
    ensures
        is_new ==> final(map)@ == Map::<i32, EmulatedThreadInfo>::empty().insert(tid, snapshot),
        !is_new ==> final(map)@ == old(map)@,
{
    if is_new {
        map.after_fork(tid, snapshot);
    }
}

/// Entering and then leaving the emulated side brings the map back to what it was, for a
/// thread that ran natively.
pub proof fn lemma_enter_leave(map: Map<i32, EmulatedThreadInfo>, tid: i32)
    requires
        map.contains_key(tid),
        !map[tid].in_emulated,
    ensures
        ({
            let m1 = map.insert(tid, EmulatedThreadInfo { in_emulated: true, ..map[tid] });
            m1.insert(tid, EmulatedThreadInfo { in_emulated: false, ..m1[tid] })
        }) == map,
{
    let m1 = map.insert(tid, EmulatedThreadInfo { in_emulated: true, ..map[tid] });
    assert(m1.insert(tid, EmulatedThreadInfo { in_emulated: false, ..m1[tid] }) =~= map);
}

} // verus!
