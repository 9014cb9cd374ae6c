//! Threads: their contexts, the map of what each thread shares with the others, and which ids
//! name threads rather than processes.

use vstd::prelude::*;

use crate::error::LxError;
use crate::rtenv::emuctx::EmulatedThreadInfo;
use crate::signal::SigNum;

verus! {

/// The least id that names a thread other than a main thread.
pub const MINIMUM_TID: i32 = 0x4000_0000;

/// The value that the entries give `tid`: that of the last entry for it.
pub open spec fn tid_get<V>(s: Seq<(i32, V)>, tid: i32) -> Option<V>
    decreases s.len(),
{
    if s.len() == 0 {
        None
    } else if s.last().0 == tid {
        Some(s.last().1)
    } else {
        tid_get(s.drop_last(), tid)
    }
}

/// The entries without those for `tid`.
pub open spec fn tid_without<V>(s: Seq<(i32, V)>, tid: i32) -> Seq<(i32, V)>
    decreases s.len(),
{
    if s.len() == 0 {
        s
    } else {
        let rest = tid_without(s.drop_last(), tid);
        if s.last().0 == tid {
            rest
        } else {
            rest.push(s.last())
        }
    }
}

proof fn lemma_tid_without_get<V>(s: Seq<(i32, V)>, tid: i32, x: i32)
    ensures
        tid_get(tid_without(s, tid), x) == if x == tid {
            None
        } else {
            tid_get(s, x)
        },
    decreases s.len(),
{
    if s.len() > 0 {
        lemma_tid_without_get(s.drop_last(), tid, x);
        let rest = tid_without(s.drop_last(), tid);
        if s.last().0 != tid {
            assert(rest.push(s.last()).drop_last() =~= rest);
        }
    }
}

/// A map from thread ids to values.
#[derive(Debug, Clone)]
pub struct TidMap<V> {
    pub entries: Vec<(i32, V)>,
}

impl<V: Copy> View for TidMap<V> {
    type V = Map<i32, V>;

    open spec fn view(&self) -> Map<i32, V> {
        Map::new(|t: i32| tid_get(self.entries@, t) is Some, |t: i32| tid_get(self.entries@, t)->Some_0)
    }
}

impl<V: Copy> TidMap<V> {
    /// An empty map.
    pub fn new() -> (r: Self)
        ensures
            r@ == Map::<i32, V>::empty(),
    {
        let r = TidMap { entries: Vec::new() };
        assert(r@ =~= Map::<i32, V>::empty());
        r
    }

    /// The value of `tid`, if any.
    pub fn get(&self, tid: i32) -> (r: Option<V>)
        ensures
            r == self@.get(tid),
    {
        let mut k = self.entries.len();
        assert(self.entries@.take(self.entries@.len() as int) =~= self.entries@);
        while k > 0
            invariant
                k <= self.entries@.len(),
                tid_get(self.entries@, tid) == tid_get(self.entries@.take(k as int), tid),
            decreases k,
        {
            assert(self.entries@.take(k as int).drop_last() =~= self.entries@.take(k - 1));
            let (t, v) = self.entries[k - 1];
            if t == tid {
                return Some(v);
            }
            k = k - 1;
        }
        None
    }

    /// Removes `tid`.
    pub fn remove(&mut self, tid: i32)
        ensures
            final(self)@ == old(self)@.remove(tid),
    {
        let ghost start = self.entries@;
        let mut kept: Vec<(i32, V)> = Vec::new();
        let mut i: usize = 0;
        while i < self.entries.len()
            invariant
                i <= self.entries@.len(),
                self.entries@ == start,
                kept@ == tid_without(start.take(i as int), tid),
            decreases self.entries@.len() - i,
        {
            assert(start.take(i + 1).drop_last() =~= start.take(i as int));
            let e = self.entries[i];
            if e.0 != tid {
                kept.push(e);
            }
            i = i + 1;
        }
        assert(start.take(start.len() as int) =~= start);
        self.entries = kept;
        proof {
            assert forall|x: i32| #[trigger] tid_get(self.entries@, x) == if x == tid {
                None
            } else {
                tid_get(start, x)
            } by {
                lemma_tid_without_get(start, tid, x);
            }
            assert(self@ =~= old(self)@.remove(tid));
        }
    }

    /// Sets the value of `tid`.
    pub fn insert(&mut self, tid: i32, value: V)
        ensures
            final(self)@ == old(self)@.insert(tid, value),
    {
        self.remove(tid);
        let ghost mid = self.entries@;
        let ghost m1 = self@;
        self.entries.push((tid, value));
        proof {
            assert(self.entries@.drop_last() =~= mid);
            assert forall|x: i32| x != tid implies #[trigger] tid_get(self.entries@, x) == tid_get(
                mid,
                x,
            ) by {}
            assert(tid_get(self.entries@, tid) == Some(value));
            assert(self@ =~= m1.insert(tid, value));
            assert(old(self)@.remove(tid).insert(tid, value) =~= old(self)@.insert(tid, value));
        }
    }

    /// Keeps only `tid` with `value`, as a new process does after `fork`.
    pub fn after_fork(&mut self, tid: i32, value: V)
        ensures
            final(self)@ == Map::<i32, V>::empty().insert(tid, value),
    {
        self.entries = Vec::new();
        self.entries.push((tid, value));
        proof {
            assert(self.entries@.drop_last() =~= Seq::<(i32, V)>::empty());
            assert forall|x: i32| x != tid implies #[trigger] tid_get(self.entries@, x) is None by {
                assert(tid_get(self.entries@.drop_last(), x) is None);
            }
            assert(self@ =~= Map::<i32, V>::empty().insert(tid, value));
        }
    }
}

/// What a thread shares with the rest of the process.
#[derive(Debug, Clone, Copy, PartialEq, Eq, Structural)]
pub struct ThreadPubCtx {
    pub emulation: EmulatedThreadInfo,
}

impl ThreadPubCtx {
    /// The shared context of a thread whose native thread-local base is `native_gsbase`.
    pub fn new(native_gsbase: usize) -> (r: Self)
        ensures
            r.emulation == EmulatedThreadInfo::new_spec(native_gsbase),
    {
        ThreadPubCtx { emulation: EmulatedThreadInfo::new(native_gsbase) }
    }
}

/// The shared contexts of the threads of the process.
pub type ThreadPubCtxMap = TidMap<ThreadPubCtx>;

/// The context of the current thread.
#[derive(Debug, Clone, Copy, PartialEq, Eq, Structural)]
pub struct ThreadCtx {
    pub tid: i32,
    pub emulated_gsbase: usize,
    /// The address to clear and wake at exit, if any.
    pub clear_tid: Option<u64>,
}

impl ThreadCtx {
    /// The context of a thread that has no id yet.
    pub fn new() -> (r: Self)
        ensures
            r == (ThreadCtx { tid: 0, emulated_gsbase: 0, clear_tid: None }),
    {
        ThreadCtx { tid: 0, emulated_gsbase: 0, clear_tid: None }
    }
}

/// Sets the address that the thread clears at exit.
pub fn set_clear_tid(ctx: &mut ThreadCtx, value: Option<u64>)
    ensures
        *final(ctx) == (ThreadCtx { clear_tid: value, ..*old(ctx) }),
{
    ctx.clear_tid = value;
}

/// The thread id of the current thread.
pub fn id(ctx: &ThreadCtx) -> (r: i32)
    ensures
        r == ctx.tid,
{
    ctx.tid
}

/// Whom `kill` of `tid` signals: the process `tid` where it names a process; a thread other
/// than a main thread cannot be signalled alone (`ESRCH`).
pub fn kill(tid: i32, signum: SigNum) -> (r: Result<(i32, SigNum), LxError>)
    ensures
        tid < MINIMUM_TID ==> r == Ok::<(i32, SigNum), LxError>((tid, signum)),
        tid >= MINIMUM_TID ==> r == Err::<(i32, SigNum), LxError>(LxError(LxError::ESRCH)),
{
    if tid < MINIMUM_TID {
        Ok((tid, signum))
    } else {
        Err(LxError(LxError::ESRCH))
    }
}

/// After a call that may have forked: in the new process, only the current thread remains,
/// with the shared context it had before (`snapshot`); elsewhere nothing changes.
pub fn may_fork(map: &mut ThreadPubCtxMap, is_new: bool, tid: i32, snapshot: ThreadPubCtx)
    ensures
        is_new ==> final(map)@ == Map::<i32, ThreadPubCtx>::empty().insert(tid, snapshot),
        !is_new ==> final(map)@ == old(map)@,
{
    if is_new {
        map.after_fork(tid, snapshot);
    }
}

} // verus!
