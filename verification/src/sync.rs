//! Futex operations, robust lists and restartable sequences.

use vstd::prelude::*;

use crate::error::LxError;

verus! {

/// The operation word of a `futex` call: a command and option bits.
#[derive(Debug, Clone, Copy, PartialEq, Eq, Structural)]
pub struct FutexOp(pub i32);

impl FutexOp {
    /// The option bits.
    pub fn opts(self) -> (r: FutexOpts)
        ensures
            r.0 == self.0 & !0x7fi32,
    {
        FutexOpts(self.0 & !0x7f)
    }

    /// The command.
    pub fn cmd(self) -> (r: FutexCmd)
        ensures
            r.0 == self.0 & 0x7fi32,
    {
        FutexCmd(self.0 & 0x7f)
    }
}

/// A `futex` command.
#[derive(Debug, Clone, Copy, PartialEq, Eq, Structural)]
pub struct FutexCmd(pub i32);

impl FutexCmd {
    pub const FUTEX_WAIT: i32 = 0;
    pub const FUTEX_WAKE: i32 = 1;
    pub const FUTEX_FD: i32 = 2;
    pub const FUTEX_REQUEUE: i32 = 3;
    pub const FUTEX_CMP_REQUEUE: i32 = 4;
    pub const FUTEX_WAKE_OP: i32 = 5;
    pub const FUTEX_LOCK_PI: i32 = 6;
}

/// Option bits of a `futex` call.
#[derive(Debug, Clone, Copy, PartialEq, Eq, Structural)]
pub struct FutexOpts(pub i32);

impl FutexOpts {
    pub const FUTEX_PRIVATE_FLAGS: i32 = 128;
    pub const FUTEX_CLOCK_REALTIME: i32 = 256;

    /// Whether every bit of `flag` is set.
    pub fn contains(self, flag: i32) -> (r: bool)
        ensures
            r == (self.0 & flag == flag),
    {
        self.0 & flag == flag
    }
}

/// The third value of a `FUTEX_WAKE_OP` call, which packs an operation, a comparison and their
/// arguments.
#[derive(Debug, Clone, Copy, PartialEq, Eq, Structural)]
pub struct FutexWakeOpVal3(pub u32);

impl FutexWakeOpVal3 {
    /// The operation: the top 4 bits.
    pub fn op(self) -> (r: FutexWakeOp)
        ensures
            r.0 == self.0 >> 28u32,
    {
        FutexWakeOp(self.0 >> 28)
    }

    /// The comparison: bits 24 to 27.
    pub fn cmp(self) -> (r: FutexWakeOpCmp)
        ensures
            r.0 == (self.0 >> 24u32) & 0xfu32,
    {
        FutexWakeOpCmp((self.0 >> 24) & 0xf)
    }

    /// The operation's argument: bits 12 to 23.
    pub fn oparg(self) -> (r: u32)
        ensures
            r == (self.0 >> 12u32) & 0xfffu32,
    {
        (self.0 >> 12) & 0xfff
    }

    /// The comparison's argument: the low 12 bits.
    pub fn cmparg(self) -> (r: u32)
        ensures
            r == self.0 & 0xfffu32,
    {
        self.0 & 0xfff
    }
}

/// The operation of a `FUTEX_WAKE_OP` call.
#[derive(Debug, Clone, Copy, PartialEq, Eq, Structural)]
pub struct FutexWakeOp(pub u32);

impl FutexWakeOp {
    pub const FUTEX_OP_SET: u32 = 0;
    pub const FUTEX_OP_ADD: u32 = 1;
    pub const FUTEX_OP_OR: u32 = 2;
    pub const FUTEX_OP_ANDN: u32 = 3;
    pub const FUTEX_OP_XOR: u32 = 4;

    /// The value that the operation leaves, where it is one of the five.
    pub open spec fn result(self, oldval: u32, oparg: u32) -> Option<u32> {
        if self.0 == Self::FUTEX_OP_SET {
            Some(oparg)
        } else if self.0 == Self::FUTEX_OP_ADD {
            Some((oldval + oparg) as u32)
        } else if self.0 == Self::FUTEX_OP_OR {
            Some(oldval | oparg)
        } else if self.0 == Self::FUTEX_OP_ANDN {
            Some(oldval & !oparg)
        } else if self.0 == Self::FUTEX_OP_XOR {
            Some(oldval ^ oparg)
        } else {
            None
        }
    }

    /// Applies the operation to `oldval`; an unknown operation is `EINVAL` and changes nothing.
    pub fn perform(self, oldval: &mut u32, oparg: u32) -> (r: Result<(), LxError>)
        requires
            self.0 == Self::FUTEX_OP_ADD ==> *old(oldval) + oparg <= u32::MAX,
        ensures
            match self.result(*old(oldval), oparg) {
                Some(v) => r is Ok && *final(oldval) == v,
                None => r == Err::<(), LxError>(LxError(LxError::EINVAL)) && *final(oldval) == *old(
                    oldval,
                ),
            },
    {
        if self.0 == Self::FUTEX_OP_SET {
            *oldval = oparg;
        } else if self.0 == Self::FUTEX_OP_ADD {
            *oldval = *oldval + oparg;
        } else if self.0 == Self::FUTEX_OP_OR {
            *oldval = *oldval | oparg;
        } else if self.0 == Self::FUTEX_OP_ANDN {
            *oldval = *oldval & !oparg;
        } else if self.0 == Self::FUTEX_OP_XOR {
            *oldval = *oldval ^ oparg;
        } else {
            return Err(LxError(LxError::EINVAL));
        }
        Ok(())
    }
}

/// The comparison of a `FUTEX_WAKE_OP` call.
#[derive(Debug, Clone, Copy, PartialEq, Eq, Structural)]
pub struct FutexWakeOpCmp(pub u32);

impl FutexWakeOpCmp {
    pub const FUTEX_OP_CMP_EQ: u32 = 0;
    pub const FUTEX_OP_CMP_NE: u32 = 1;
    pub const FUTEX_OP_CMP_LT: u32 = 2;
    pub const FUTEX_OP_CMP_LE: u32 = 3;
    pub const FUTEX_OP_CMP_GT: u32 = 4;
    pub const FUTEX_OP_CMP_GE: u32 = 5;

    /// The outcome of the comparison, where it is one of the six.
    pub open spec fn outcome(self, oldval: u32, cmparg: u32) -> Option<bool> {
        if self.0 == Self::FUTEX_OP_CMP_EQ {
            Some(oldval == cmparg)
        } else if self.0 == Self::FUTEX_OP_CMP_NE {
            Some(oldval != cmparg)
        } else if self.0 == Self::FUTEX_OP_CMP_LT {
            Some(oldval < cmparg)
        } else if self.0 == Self::FUTEX_OP_CMP_LE {
            Some(oldval <= cmparg)
        } else if self.0 == Self::FUTEX_OP_CMP_GT {
            Some(oldval > cmparg)
        } else if self.0 == Self::FUTEX_OP_CMP_GE {
            Some(oldval >= cmparg)
        } else {
            None
        }
    }

    /// Compares `oldval` with `cmparg`; an unknown comparison is `EINVAL`.
    pub fn perform(self, oldval: u32, cmparg: u32) -> (r: Result<bool, LxError>)
        ensures
            r == match self.outcome(oldval, cmparg) {
                Some(b) => Ok::<bool, LxError>(b),
                None => Err(LxError(LxError::EINVAL)),
            },
    {
        if self.0 == Self::FUTEX_OP_CMP_EQ {
            Ok(oldval == cmparg)
        } else if self.0 == Self::FUTEX_OP_CMP_NE {
            Ok(oldval != cmparg)
        } else if self.0 == Self::FUTEX_OP_CMP_LT {
            Ok(oldval < cmparg)
        } else if self.0 == Self::FUTEX_OP_CMP_LE {
            Ok(oldval <= cmparg)
        } else if self.0 == Self::FUTEX_OP_CMP_GT {
            Ok(oldval > cmparg)
        } else if self.0 == Self::FUTEX_OP_CMP_GE {
            Ok(oldval >= cmparg)
        } else {
            Err(LxError(LxError::EINVAL))
        }
    }
}

/// An entry of a robust futex list: the address of the next entry, zero at the end.
#[derive(Debug, Clone, Copy, PartialEq, Eq, Structural)]
pub struct RobustList {
    pub next: u64,
}

/// The head of a robust futex list.
#[derive(Debug, Clone, Copy, PartialEq, Eq, Structural)]
pub struct RobustListHead {
    pub list: RobustList,
    pub futex_offset: i64,
    /// The address of the entry being operated on, zero if none.
    pub list_op_pending: u64,
}

/// The restartable sequence area of a thread.
#[derive(Debug, Clone, Copy, PartialEq, Eq, Structural)]
pub struct RSeq {
    pub cpu_id_start: u32,
    pub cpu_id: u32,
    /// The address of the current critical section, zero if none.
    pub rseq_cs: u64,
    pub flags: u32,
    pub node_id: u32,
    pub mm_cid: u32,
}

/// A restartable sequence critical section.
#[derive(Debug, Clone, Copy, PartialEq, Eq, Structural)]
pub struct RSeqCs {
    pub version: u32,
    pub flags: u32,
    pub start_ip: u64,
    pub post_commit_offset: u64,
    pub abort_ip: u64,
}

/// The four fields of a `FUTEX_WAKE_OP` value are disjoint and make up the whole value.
pub proof fn lemma_wake_op_fields(v: u32)
    ensures
        ((v >> 28u32) << 28u32) | (((v >> 24u32) & 0xfu32) << 24u32) | (((v >> 12u32) & 0xfffu32)
            << 12u32) | (v & 0xfffu32) == v,
        (v >> 24u32) & 0xfu32 < 16,
{
    assert(((v >> 28u32) << 28u32) | (((v >> 24u32) & 0xfu32) << 24u32) | (((v >> 12u32)
        & 0xfffu32) << 12u32) | (v & 0xfffu32) == v && (v >> 24u32) & 0xfu32 < 16) by (bit_vector);
}

} // verus!
