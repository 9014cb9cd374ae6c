//! Processes and threads: wait statuses, clone arguments, resource usage and limits.

use vstd::prelude::*;

use crate::bytes::{le_value, read_le_u64};
use crate::error::LxError;
use crate::signal::SigNum;
use crate::time::Timeval;
use crate::{FromApple, ToApple};

verus! {

/// A wait status as Linux encodes it.
#[derive(Debug, Clone, Copy, PartialEq, Eq, Structural)]
pub struct WaitStatus(pub i32);

/// The Linux wait status of the Darwin one `apple`: the Linux number of the terminating signal
/// (`SIGUNUSED` for one that Linux lacks), or else the exit status in the second byte.
pub open spec fn wait_status_of(apple: i32) -> i32 {
    let sig = apple & 0x7fi32;
    if sig != 0 {
        match SigNum::linux_of(sig) {
            Some(s) => s as i32,
            None => SigNum::SIGUNUSED as i32,
        }
    } else {
        (((apple >> 8i32) & 0xffi32) * 256) as i32
    }
}

impl WaitStatus {
    pub fn from_apple(apple: i32) -> (r: Self)
        ensures
            r.0 == wait_status_of(apple),
    {
        let sig = apple & 0x7f;
        if sig != 0 {
            match SigNum::from_apple(sig) {
                Ok(s) => WaitStatus(s.0 as i32),
                Err(_) => WaitStatus(SigNum::SIGUNUSED as i32),
            }
        } else {
            let code = (apple >> 8) & 0xff;
            assert(0 <= code <= 0xff) by (bit_vector)
                requires
                    code == (apple >> 8i32) & 0xffi32,
            ;
            WaitStatus(code * 256)
        }
    }
}

/// What a `clone` call creates.
#[derive(Debug, Clone, Copy, PartialEq, Eq, Structural)]
pub enum ChildType {
    Process,
    Thread,
    Unsupported,
}

/// Flags of a `clone` call.
#[derive(Debug, Clone, Copy, PartialEq, Eq, Structural)]
pub struct CloneFlags(pub u32);

impl CloneFlags {
    pub const CLONE_VM: u32 = 0x100;
    pub const CLONE_FS: u32 = 0x200;
    pub const CLONE_FILES: u32 = 0x400;
    pub const CLONE_SIGHAND: u32 = 0x800;
    pub const CLONE_PARENT: u32 = 0x8000;
    pub const CLONE_THREAD: u32 = 0x10000;
    pub const CLONE_SETTLS: u32 = 0x800000;
    pub const CLONE_PARENT_SETTID: u32 = 0x100000;
    pub const CLONE_CHILD_CLEARTID: u32 = 0x200000;
    pub const CLONE_CHILD_SETTID: u32 = 0x1000000;
    pub const CLONE_IO: u32 = 0x80000000;

    /// The flags that together make a thread: shared memory, file system data, descriptors,
    /// signal handlers and thread group.
    pub open spec fn thread_mask() -> u32 {
        0x10f00
    }

    /// A thread where all the thread flags are set, a process where none is, and neither
    /// where only some are.
    pub fn child_type(self) -> (r: ChildType)
        ensures
            r == (if self.0 & Self::thread_mask() == Self::thread_mask() {
                ChildType::Thread
            } else if self.0 & Self::thread_mask() != 0 {
                ChildType::Unsupported
            } else {
                ChildType::Process
            }),
    {
        let thread_mask = Self::CLONE_VM | Self::CLONE_FS | Self::CLONE_FILES | Self::CLONE_SIGHAND
            | Self::CLONE_THREAD;
        assert(0x100u32 | 0x200u32 | 0x400u32 | 0x800u32 | 0x10000u32 == 0x10f00u32) by (bit_vector);
        if self.0 & thread_mask == thread_mask {
            ChildType::Thread
        } else if self.0 & thread_mask != 0 {
            ChildType::Unsupported
        } else {
            ChildType::Process
        }
    }
}

/// Options of a `wait` call.
#[derive(Debug, Clone, Copy, PartialEq, Eq, Structural)]
pub struct WaitOptions(pub u32);

impl WaitOptions {
    pub const WNOHANG: u32 = 1;

    /// The Darwin options: `WNOHANG` where it is set.
    pub fn to_apple(self) -> (r: i32)
        ensures
            r == (if self.0 & Self::WNOHANG == Self::WNOHANG {
                1i32
            } else {
                0i32
            }),
    {
        if self.0 & Self::WNOHANG == Self::WNOHANG {
            1
        } else {
            0
        }
    }
}

/// The arguments of a `clone3` call.
#[derive(Debug, Clone, Copy, PartialEq, Eq, Structural)]
pub struct CloneArgs {
    pub flags: u64,
    pub pidfd: u64,
    pub child_tid: u64,
    pub parent_tid: u64,
    pub exit_signal: u64,
    pub stack: u64,
    pub stack_size: u64,
    pub tls: u64,
    pub set_tid: u64,
    pub set_tid_size: u64,
    pub cgroup: u64,
}

/// Whether `size` is the size of one of the versions of the `clone3` arguments.
pub open spec fn clone_args_size_ok(size: int) -> bool {
    size == 64 || size == 80 || size == 88
}

/// The `k`-th word of the arguments: read from `data` where it lies within the first `size`
/// bytes, zero after them.
pub open spec fn clone_args_word(data: Seq<u8>, size: int, k: int) -> u64 {
    if 8 * k + 8 <= size {
        le_value(data.subrange(8 * k, 8 * k + 8)) as u64
    } else {
        0
    }
}

fn clone_args_word_at(data: &[u8], size: usize, k: usize) -> (r: u64)
    requires
        size <= data@.len(),
        k < 11,
    ensures
        r == clone_args_word(data@, size as int, k as int),
{
    if 8 * k + 8 <= size {
        read_le_u64(data, 8 * k)
    } else {
        0
    }
}

impl CloneArgs {
    /// Reads the arguments from the first `size` bytes of `data`; a size that is no version's
    /// is `EINVAL`, and the fields that an older version lacks are zero.
    pub fn from_ptr_size(data: &[u8], size: usize) -> (r: Result<Self, LxError>)
        requires
            clone_args_size_ok(size as int) ==> size <= data@.len(),
        ensures
            !clone_args_size_ok(size as int) ==> r == Err::<CloneArgs, LxError>(
                LxError(LxError::EINVAL),
            ),
            clone_args_size_ok(size as int) ==> r == Ok::<CloneArgs, LxError>(
                CloneArgs {
                    flags: clone_args_word(data@, size as int, 0),
                    pidfd: clone_args_word(data@, size as int, 1),
                    child_tid: clone_args_word(data@, size as int, 2),
                    parent_tid: clone_args_word(data@, size as int, 3),
                    exit_signal: clone_args_word(data@, size as int, 4),
                    stack: clone_args_word(data@, size as int, 5),
                    stack_size: clone_args_word(data@, size as int, 6),
                    tls: clone_args_word(data@, size as int, 7),
                    set_tid: clone_args_word(data@, size as int, 8),
                    set_tid_size: clone_args_word(data@, size as int, 9),
                    cgroup: clone_args_word(data@, size as int, 10),
                },
            ),
    {
        if !(size == 64 || size == 80 || size == 88) {
            return Err(LxError(LxError::EINVAL));
        }
        Ok(CloneArgs {
            flags: clone_args_word_at(data, size, 0),
            pidfd: clone_args_word_at(data, size, 1),
            child_tid: clone_args_word_at(data, size, 2),
            parent_tid: clone_args_word_at(data, size, 3),
            exit_signal: clone_args_word_at(data, size, 4),
            stack: clone_args_word_at(data, size, 5),
            stack_size: clone_args_word_at(data, size, 6),
            tls: clone_args_word_at(data, size, 7),
            set_tid: clone_args_word_at(data, size, 8),
            set_tid_size: clone_args_word_at(data, size, 9),
            cgroup: clone_args_word_at(data, size, 10),
        })
    }

    /// The clone flags: the low 32 bits of the flags word.
    pub fn flags(&self) -> (r: CloneFlags)
        ensures
            r.0 == self.flags as u32,
    {
        CloneFlags(self.flags as u32)
    }

    /// The address where the child's pid file descriptor goes.
    pub fn pidfd(&self) -> (r: u64)
        ensures
            r == self.pidfd,
    {
        self.pidfd
    }

    /// The address of the child's thread id.
    pub fn child_tid(&self) -> (r: u64)
        ensures
            r == self.child_tid,
    {
        self.child_tid
    }

    /// The address of the parent's copy of the child's thread id.
    pub fn parent_tid(&self) -> (r: u64)
        ensures
            r == self.parent_tid,
    {
        self.parent_tid
    }

    /// The signal sent to the parent when the child exits: the low 32 bits of the word.
    pub fn exit_signal(&self) -> (r: SigNum)
        ensures
            r.0 == self.exit_signal as u32,
    {
        SigNum(self.exit_signal as u32)
    }

    /// The top of the child's stack: its base plus its size.
    pub fn stack(&self) -> (r: u64)
        requires
            self.stack + self.stack_size <= u64::MAX,
        ensures
            r == self.stack + self.stack_size,
    {
        self.stack + self.stack_size
    }

    /// The address of the child's thread-local storage.
    pub fn tls(&self) -> (r: u64)
        ensures
            r == self.tls,
    {
        self.tls
    }

    /// The address and the length of the array of thread ids to give the child.
    pub fn set_tid(&self) -> (r: (u64, u64))
        ensures
            r == (self.set_tid, self.set_tid_size),
    {
        (self.set_tid, self.set_tid_size)
    }
}

/// Darwin resource usage, as plain values; times are seconds and microseconds.
#[derive(Debug, Clone, Copy, PartialEq, Eq)]
pub struct DarwinRUsage {
    pub ru_utime: (i64, i32),
    pub ru_stime: (i64, i32),
    pub ru_maxrss: i64,
    pub ru_ixrss: i64,
    pub ru_idrss: i64,
    pub ru_isrss: i64,
    pub ru_minflt: i64,
    pub ru_majflt: i64,
    pub ru_nswap: i64,
    pub ru_inblock: i64,
    pub ru_oublock: i64,
    pub ru_msgsnd: i64,
    pub ru_msgrcv: i64,
    pub ru_nsignals: i64,
    pub ru_nvcsw: i64,
    pub ru_nivcsw: i64,
}

/// Resource usage as Linux reports it.
#[derive(Debug, Clone, Copy)]
pub struct RUsage {
    pub ru_utime: Timeval,
    pub ru_stime: Timeval,
    pub ru_maxrss: i64,
    pub ru_ixrss: i64,
    pub ru_idrss: i64,
    pub ru_isrss: i64,
    pub ru_minflt: i64,
    pub ru_majflt: i64,
    pub ru_nswap: i64,
    pub ru_inblock: i64,
    pub ru_oublock: i64,
    pub ru_msgsnd: i64,
    pub ru_msgrcv: i64,
    pub ru_nsignals: i64,
    pub ru_nvcsw: i64,
    pub ru_nivcsw: i64,
    pub __reserved: [i64; 16],
}

impl RUsage {
    /// The same usage, with the reserved words zero.
    pub fn from_apple(apple: DarwinRUsage) -> (r: Self)
        ensures
            r.ru_utime == (Timeval { tv_sec: apple.ru_utime.0, tv_usec: apple.ru_utime.1 as i64 }),
            r.ru_stime == (Timeval { tv_sec: apple.ru_stime.0, tv_usec: apple.ru_stime.1 as i64 }),
            r.ru_maxrss == apple.ru_maxrss,
            r.ru_ixrss == apple.ru_ixrss,
            r.ru_idrss == apple.ru_idrss,
            r.ru_isrss == apple.ru_isrss,
            r.ru_minflt == apple.ru_minflt,
            r.ru_majflt == apple.ru_majflt,
            r.ru_nswap == apple.ru_nswap,
            r.ru_inblock == apple.ru_inblock,
            r.ru_oublock == apple.ru_oublock,
            r.ru_msgsnd == apple.ru_msgsnd,
            r.ru_msgrcv == apple.ru_msgrcv,
            r.ru_nsignals == apple.ru_nsignals,
            r.ru_nvcsw == apple.ru_nvcsw,
            r.ru_nivcsw == apple.ru_nivcsw,
            forall|i: int| 0 <= i < 16 ==> r.__reserved@[i] == 0,
    {
        let r = RUsage {
            ru_utime: Timeval::from_apple(apple.ru_utime.0, apple.ru_utime.1),
            ru_stime: Timeval::from_apple(apple.ru_stime.0, apple.ru_stime.1),
            ru_maxrss: apple.ru_maxrss,
            ru_ixrss: apple.ru_ixrss,
            ru_idrss: apple.ru_idrss,
            ru_isrss: apple.ru_isrss,
            ru_minflt: apple.ru_minflt,
            ru_majflt: apple.ru_majflt,
            ru_nswap: apple.ru_nswap,
            ru_inblock: apple.ru_inblock,
            ru_oublock: apple.ru_oublock,
            ru_msgsnd: apple.ru_msgsnd,
            ru_msgrcv: apple.ru_msgrcv,
            ru_nsignals: apple.ru_nsignals,
            ru_nvcsw: apple.ru_nvcsw,
            ru_nivcsw: apple.ru_nivcsw,
            __reserved: [0, 0, 0, 0, 0, 0, 0, 0, 0, 0, 0, 0, 0, 0, 0, 0],
        };
        r
    }
}

/// A Darwin resource limit, as plain values.
#[derive(Debug, Clone, Copy, PartialEq, Eq, Structural)]
pub struct DarwinRLimit {
    pub rlim_cur: u64,
    pub rlim_max: u64,
}

/// Darwin's value for no limit.
pub const APPLE_RLIM_INFINITY: u64 = 0x7fff_ffff_ffff_ffff;

/// The Linux limit that the Darwin limit `apple` is read as.
pub open spec fn rlim_from_apple(apple: u64) -> u64 {
    if apple == APPLE_RLIM_INFINITY {
        RLimit64::RLIM_INFINITY
    } else {
        apple
    }
}

/// The Darwin limit that the Linux limit `linux` is written as.
pub open spec fn rlim_to_apple(linux: u64) -> u64 {
    if linux == RLimit64::RLIM_INFINITY {
        APPLE_RLIM_INFINITY
    } else {
        linux
    }
}

/// A resource limit as Linux gives it.
#[derive(Debug, Clone, Copy, PartialEq, Eq, Structural)]
pub struct RLimit64 {
    pub rlim_cur: u64,
    pub rlim_max: u64,
}

impl RLimit64 {
    /// No limit.
    pub const RLIM_INFINITY: u64 = 0xffff_ffff_ffff_ffff;

    fn value_from_apple(apple: u64) -> (r: u64)
        ensures
            r == rlim_from_apple(apple),
    {
        if apple == APPLE_RLIM_INFINITY {
            Self::RLIM_INFINITY
        } else {
            apple
        }
    }

    fn value_to_apple(linux: u64) -> (r: u64)
        ensures
            r == rlim_to_apple(linux),
    {
        if linux == Self::RLIM_INFINITY {
            APPLE_RLIM_INFINITY
        } else {
            linux
        }
    }

    pub fn from_apple(apple: DarwinRLimit) -> (r: Self)
        ensures
            r.rlim_cur == rlim_from_apple(apple.rlim_cur),
            r.rlim_max == rlim_from_apple(apple.rlim_max),
    {
        RLimit64 {
            rlim_cur: Self::value_from_apple(apple.rlim_cur),
            rlim_max: Self::value_from_apple(apple.rlim_max),
        }
    }

    pub fn to_apple(self) -> (r: DarwinRLimit)
        ensures
            r.rlim_cur == rlim_to_apple(self.rlim_cur),
            r.rlim_max == rlim_to_apple(self.rlim_max),
    {
        DarwinRLimit {
            rlim_cur: Self::value_to_apple(self.rlim_cur),
            rlim_max: Self::value_to_apple(self.rlim_max),
        }
    }
}

/// A Linux limit keeps its value through Darwin and back, unless it is Darwin's own value for
/// no limit, which Darwin cannot tell from no limit.
pub proof fn lemma_rlimit_linux_round_trip(linux: u64)
    requires
        linux != APPLE_RLIM_INFINITY,
    ensures
        rlim_from_apple(rlim_to_apple(linux)) == linux,
{
}

/// A Darwin limit keeps its value through Linux and back, unless it is Linux's value for no
/// limit.
pub proof fn lemma_rlimit_apple_round_trip(apple: u64)
    requires
        apple != RLimit64::RLIM_INFINITY,
    ensures
        rlim_to_apple(rlim_from_apple(apple)) == apple,
{
}

/// The operation of a `prctl` call.
#[derive(Debug, Clone, Copy, PartialEq, Eq, Structural)]
pub struct PrctlOp(pub u32);

/// A resource that a limit of `getrlimit` and `setrlimit` applies to.
#[derive(Debug, Clone, Copy, PartialEq, Eq, Structural)]
pub struct RLimitable(pub u32);

impl RLimitable {
    pub const RLIMIT_CPU: u32 = 0;
    pub const RLIMIT_FSIZE: u32 = 1;
    pub const RLIMIT_DATA: u32 = 2;
    pub const RLIMIT_STACK: u32 = 3;
    pub const RLIMIT_CORE: u32 = 4;
    pub const RLIMIT_NOFILE: u32 = 7;
    pub const RLIMIT_MEMLOCK: u32 = 8;
    pub const RLIMIT_AS: u32 = 9;
    pub const RLIMIT_LOCKS: u32 = 10;
    pub const RLIMIT_SIGPENDING: u32 = 11;
    pub const RLIMIT_MSGQUEUE: u32 = 12;
    pub const RLIMIT_NICE: u32 = 13;
    pub const RLIMIT_RTPRIO: u32 = 14;
    pub const RLIMIT_RTTIME: u32 = 15;
    pub const RLIMIT_RSS: u32 = 5;
    pub const RLIMIT_NRPOC: u32 = 6;

    /// The Darwin value that the Linux value `linux` stands for, if Darwin has one.
    pub open spec fn apple_of(linux: u32) -> Option<i32> {
        match linux {
            0 => Some(0i32),
            1 => Some(1i32),
            2 => Some(2i32),
            3 => Some(3i32),
            4 => Some(4i32),
            7 => Some(8i32),
            8 => Some(6i32),
            9 => Some(5i32),
            _ => None,
        }
    }

    /// The Linux value that the Darwin value `apple` is read as, if any.
    pub open spec fn linux_of(apple: i32) -> Option<u32> {
        match apple {
            0 => Some(0u32),
            1 => Some(1u32),
            2 => Some(2u32),
            3 => Some(3u32),
            4 => Some(4u32),
            8 => Some(7u32),
            6 => Some(8u32),
            5 => Some(9u32),
            _ => None,
        }
    }

}

impl FromApple for RLimitable {
    type Apple = i32;

    fn from_apple(apple: i32) -> (r: Result<Self, LxError>)
        ensures
            r == (match Self::linux_of(apple) {
                Some(x) => Ok(RLimitable(x)),
                None => Err(LxError(LxError::EINVAL)),
            }),
    {
        match apple {
            0 => Ok(RLimitable(Self::RLIMIT_CPU)),
            1 => Ok(RLimitable(Self::RLIMIT_FSIZE)),
            2 => Ok(RLimitable(Self::RLIMIT_DATA)),
            3 => Ok(RLimitable(Self::RLIMIT_STACK)),
            4 => Ok(RLimitable(Self::RLIMIT_CORE)),
            8 => Ok(RLimitable(Self::RLIMIT_NOFILE)),
            6 => Ok(RLimitable(Self::RLIMIT_MEMLOCK)),
            5 => Ok(RLimitable(Self::RLIMIT_AS)),
            _ => Err(LxError(LxError::EINVAL)),
        }
    }
}

impl ToApple for RLimitable {
    type Apple = i32;

    fn to_apple(self) -> (r: Result<i32, LxError>)
        ensures
            r == (match Self::apple_of(self.0) {
                Some(a) => Ok(a),
                None => Err(LxError(LxError::EINVAL)),
            }),
    {
        match self.0 {
            0 => Ok(0),
            1 => Ok(1),
            2 => Ok(2),
            3 => Ok(3),
            4 => Ok(4),
            7 => Ok(8),
            8 => Ok(6),
            9 => Ok(5),
            _ => Err(LxError(LxError::EINVAL)),
        }
    }
}

/// Whose resource usage `getrusage` reports.
#[derive(Debug, Clone, Copy, PartialEq, Eq, Structural)]
pub struct RUsageWho(pub u32);

impl RUsageWho {
    pub const RUSAGE_SELF: u32 = 0;
    pub const RUSAGE_CHILDREN: u32 = 4294967295;
    pub const RUSAGE_THREAD: u32 = 1;

    /// The Darwin value that the Linux value `linux` stands for, if Darwin has one.
    pub open spec fn apple_of(linux: u32) -> Option<i32> {
        match linux {
            0 => Some(0i32),
            4294967295 => Some(-1i32),
            1 => Some(0i32),
            _ => None,
        }
    }

    /// The Linux value that the Darwin value `apple` is read as, if any.
    pub open spec fn linux_of(apple: i32) -> Option<u32> {
        match apple {
            0 => Some(0u32),
            -1 => Some(4294967295u32),
            _ => None,
        }
    }

}

impl FromApple for RUsageWho {
    type Apple = i32;

    fn from_apple(apple: i32) -> (r: Result<Self, LxError>)
        ensures
            r == (match Self::linux_of(apple) {
                Some(x) => Ok(RUsageWho(x)),
                None => Err(LxError(LxError::EINVAL)),
            }),
    {
        match apple {
            0 => Ok(RUsageWho(Self::RUSAGE_SELF)),
            -1 => Ok(RUsageWho(Self::RUSAGE_CHILDREN)),
            _ => Err(LxError(LxError::EINVAL)),
        }
    }
}

impl ToApple for RUsageWho {
    type Apple = i32;

    fn to_apple(self) -> (r: Result<i32, LxError>)
        ensures
            r == (match Self::apple_of(self.0) {
                Some(a) => Ok(a),
                None => Err(LxError(LxError::EINVAL)),
            }),
    {
        match self.0 {
            0 => Ok(0),
            4294967295 => Ok(-1),
            1 => Ok(0),
            _ => Err(LxError(LxError::EINVAL)),
        }
    }
}

/// Darwin `RLIMIT_CPU`.
pub const APPLE_RLIMIT_CPU: i32 = 0;
/// Darwin `RLIMIT_FSIZE`.
pub const APPLE_RLIMIT_FSIZE: i32 = 1;
/// Darwin `RLIMIT_DATA`.
pub const APPLE_RLIMIT_DATA: i32 = 2;
/// Darwin `RLIMIT_STACK`.
pub const APPLE_RLIMIT_STACK: i32 = 3;
/// Darwin `RLIMIT_CORE`.
pub const APPLE_RLIMIT_CORE: i32 = 4;
/// Darwin `RLIMIT_NOFILE`.
pub const APPLE_RLIMIT_NOFILE: i32 = 8;
/// Darwin `RLIMIT_MEMLOCK`.
pub const APPLE_RLIMIT_MEMLOCK: i32 = 6;
/// Darwin `RLIMIT_AS`.
pub const APPLE_RLIMIT_AS: i32 = 5;

/// Each resource limit stands for the Darwin limit of the same name.
pub proof fn lemma_rlimitable_by_name()
    ensures
        RLimitable::apple_of(RLimitable::RLIMIT_CPU) == Some(APPLE_RLIMIT_CPU),
        RLimitable::linux_of(APPLE_RLIMIT_CPU) == Some(RLimitable::RLIMIT_CPU),
        RLimitable::apple_of(RLimitable::RLIMIT_FSIZE) == Some(APPLE_RLIMIT_FSIZE),
        RLimitable::linux_of(APPLE_RLIMIT_FSIZE) == Some(RLimitable::RLIMIT_FSIZE),
        RLimitable::apple_of(RLimitable::RLIMIT_DATA) == Some(APPLE_RLIMIT_DATA),
        RLimitable::linux_of(APPLE_RLIMIT_DATA) == Some(RLimitable::RLIMIT_DATA),
        RLimitable::apple_of(RLimitable::RLIMIT_STACK) == Some(APPLE_RLIMIT_STACK),
        RLimitable::linux_of(APPLE_RLIMIT_STACK) == Some(RLimitable::RLIMIT_STACK),
        RLimitable::apple_of(RLimitable::RLIMIT_CORE) == Some(APPLE_RLIMIT_CORE),
        RLimitable::linux_of(APPLE_RLIMIT_CORE) == Some(RLimitable::RLIMIT_CORE),
        RLimitable::apple_of(RLimitable::RLIMIT_NOFILE) == Some(APPLE_RLIMIT_NOFILE),
        RLimitable::linux_of(APPLE_RLIMIT_NOFILE) == Some(RLimitable::RLIMIT_NOFILE),
        RLimitable::apple_of(RLimitable::RLIMIT_MEMLOCK) == Some(APPLE_RLIMIT_MEMLOCK),
        RLimitable::linux_of(APPLE_RLIMIT_MEMLOCK) == Some(RLimitable::RLIMIT_MEMLOCK),
        RLimitable::apple_of(RLimitable::RLIMIT_AS) == Some(APPLE_RLIMIT_AS),
        RLimitable::linux_of(APPLE_RLIMIT_AS) == Some(RLimitable::RLIMIT_AS),
        RLimitable::apple_of(RLimitable::RLIMIT_LOCKS) is None,
        RLimitable::apple_of(RLimitable::RLIMIT_SIGPENDING) is None,
        RLimitable::apple_of(RLimitable::RLIMIT_MSGQUEUE) is None,
        RLimitable::apple_of(RLimitable::RLIMIT_NICE) is None,
        RLimitable::apple_of(RLimitable::RLIMIT_RTPRIO) is None,
        RLimitable::apple_of(RLimitable::RLIMIT_RTTIME) is None,
        RLimitable::apple_of(RLimitable::RLIMIT_RSS) is None,
        RLimitable::apple_of(RLimitable::RLIMIT_NRPOC) is None,
{
}

/// Darwin `RUSAGE_SELF`.
pub const APPLE_RUSAGE_SELF: i32 = 0;
/// Darwin `RUSAGE_CHILDREN`.
pub const APPLE_RUSAGE_CHILDREN: i32 = -1;

/// Each whose-usage selector stands for the Darwin selector of the same name.
pub proof fn lemma_rusage_who_by_name()
    ensures
        RUsageWho::apple_of(RUsageWho::RUSAGE_SELF) == Some(APPLE_RUSAGE_SELF),
        RUsageWho::linux_of(APPLE_RUSAGE_SELF) == Some(RUsageWho::RUSAGE_SELF),
        RUsageWho::apple_of(RUsageWho::RUSAGE_CHILDREN) == Some(APPLE_RUSAGE_CHILDREN),
        RUsageWho::linux_of(APPLE_RUSAGE_CHILDREN) == Some(RUsageWho::RUSAGE_CHILDREN),
{
}

} // verus!
