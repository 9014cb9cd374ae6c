//! What the system call handlers decide: which checks refuse a call, what is handed on, and what
//! is written back to the program. The handlers themselves read and write the program's memory
//! and registers.

use vstd::prelude::*;

use crate::error::LxError;
use crate::ipc::NetworkNames;
use crate::misc::GrndFlags;
use crate::process::RLimitable;
use crate::sync::{FutexCmd, FutexOp, FutexOpts};
use crate::text::{decimal, push_decimal};
use crate::ToApple;

verus! {

/// The size of the kernel signal set that `rt_sigaction`, `rt_sigprocmask` and `ppoll` accept.
pub const KERNEL_SIGSET_SIZE: usize = 8;

/// The most bytes that one `copy_file_range` or `sendfile` call moves.
pub const COPY_CHUNK: usize = 4096;

/// `getcwd`: the bytes written to the program's buffer of `bufsz` bytes, the working directory
/// `cwd` and a terminating NUL; `ENOMEM` where they do not fit.
pub fn sys_getcwd(cwd: &[u8], bufsz: usize) -> (r: Result<Vec<u8>, LxError>)
    ensures
        bufsz < cwd@.len() + 1 ==> r == Err::<Vec<u8>, LxError>(LxError(LxError::ENOMEM)),
        bufsz >= cwd@.len() + 1 ==> (r matches Ok(v) && v@ == cwd@.push(0u8)),
{
    if bufsz <= cwd.len() {
        return Err(LxError(LxError::ENOMEM));
    }
    let mut v: Vec<u8> = Vec::new();
    let mut i: usize = 0;
    while i < cwd.len()
        invariant
            i <= cwd@.len(),
            v@ == cwd@.take(i as int),
        decreases cwd@.len() - i,
    {
        v.push(cwd[i]);
        i = i + 1;
        assert(v@ =~= cwd@.take(i as int));
    }
    v.push(0);
    assert(cwd@.take(cwd@.len() as int) =~= cwd@);
    Ok(v)
}

/// `getdents64`: the number of bytes reported for the next directory entry of `entry_size`
/// bytes (`None` at the end of the directory) in a buffer of `count` bytes; `ENOMEM` where the
/// entry does not fit.
pub fn sys_getdents64(entry_size: Option<usize>, count: i32) -> (r: Result<usize, LxError>)
    ensures
        r == match entry_size {
            None => Ok(0usize),
            Some(n) => if n > count as usize {
                Err(LxError(LxError::ENOMEM))
            } else {
                Ok(n)
            },
        },
{
    match entry_size {
        None => Ok(0),
        Some(n) => if n > count as usize {
            Err(LxError(LxError::ENOMEM))
        } else {
            Ok(n)
        },
    }
}

/// Hands back a buffer of bytes to a program's buffer of `len` bytes: the number of bytes
/// written, or `ERANGE` where they do not fit.
pub fn ret_buf(buf: &[u8], len: usize) -> (r: Result<usize, LxError>)
    ensures
        buf@.len() > len ==> r == Err::<usize, LxError>(LxError(LxError::ERANGE)),
        buf@.len() <= len ==> r == Ok::<usize, LxError>(buf@.len() as usize),
{
    if buf.len() > len {
        Err(LxError(LxError::ERANGE))
    } else {
        Ok(buf.len())
    }
}

/// The check of the signal set size of `rt_sigaction`, `rt_sigprocmask` and `ppoll`: `EINVAL`
/// unless it is the size of a kernel signal set.
pub fn check_sigset_size(size: usize) -> (r: Result<(), LxError>)
    ensures
        r == if size == KERNEL_SIGSET_SIZE {
            Ok::<(), LxError>(())
        } else {
            Err(LxError(LxError::EINVAL))
        },
{
    if size != KERNEL_SIGSET_SIZE {
        Err(LxError(LxError::EINVAL))
    } else {
        Ok(())
    }
}

/// One read and one write that move bytes between two descriptors.
#[derive(Debug, Clone, Copy, PartialEq, Eq, Structural)]
pub struct CopyPlan {
    /// The size of the buffer that the read fills.
    pub chunk: usize,
    /// The descriptor read from.
    pub read_fd: i32,
    /// The offset read at (`pread64`), or `None` to read at the descriptor's position.
    pub read_at: Option<i64>,
    /// The descriptor written to.
    pub write_fd: i32,
    /// The offset written at (`pwrite64`), or `None` to write at the descriptor's position.
    pub write_at: Option<i64>,
}

/// The smaller of `len` and [`COPY_CHUNK`].
pub open spec fn chunk_of(len: usize) -> usize {
    if len < COPY_CHUNK {
        len
    } else {
        COPY_CHUNK
    }
}

/// `copy_file_range`: `EINVAL` for any flag; otherwise one read of at most [`COPY_CHUNK`] bytes
/// from `fd_in` (at `off_in` where it is given) and one write of what was read to `fd_out` (at
/// `off_out` where it is given).
pub fn sys_copy_file_range(
    fd_in: i32,
    off_in: Option<i64>,
    fd_out: i32,
    off_out: Option<i64>,
    len: usize,
    flags: u32,
) -> (r: Result<CopyPlan, LxError>)
    ensures
        flags != 0 ==> r == Err::<CopyPlan, LxError>(LxError(LxError::EINVAL)),
        flags == 0 ==> r == Ok::<CopyPlan, LxError>(
            CopyPlan {
                chunk: chunk_of(len),
                read_fd: fd_in,
                read_at: off_in,
                write_fd: fd_out,
                write_at: off_out,
            },
        ),
{
    if flags != 0 {
        return Err(LxError(LxError::EINVAL));
    }
    let chunk = if len < COPY_CHUNK { len } else { COPY_CHUNK };
    Ok(CopyPlan { chunk, read_fd: fd_in, read_at: off_in, write_fd: fd_out, write_at: off_out })
}

/// `sendfile`: one read of at most [`COPY_CHUNK`] bytes from `in_fd` (at `off_in` where it is
/// given) and one write of what was read to `out_fd` at its position.
pub fn sys_sendfile(out_fd: i32, in_fd: i32, off_in: Option<i64>, count: usize) -> (r: CopyPlan)
    ensures
        r == (CopyPlan {
            chunk: chunk_of(count),
            read_fd: in_fd,
            read_at: off_in,
            write_fd: out_fd,
            write_at: None,
        }),
{
    let chunk = if count < COPY_CHUNK { count } else { COPY_CHUNK };
    CopyPlan { chunk, read_fd: in_fd, read_at: off_in, write_fd: out_fd, write_at: None }
}

/// The offset that is stored back after `n` bytes were moved at `off`.
pub fn advance_offset(off: i64, n: usize) -> (r: i64)
    requires
        n <= i64::MAX,
        off + n <= i64::MAX,
    ensures
        r == off + n,
{
    off + n as i64
}

/// `prlimit64`: `EPERM` unless `pid` names the calling process (`0`, `-1` or `self_pid`);
/// otherwise the Darwin resource to read and set, or `None` where Darwin has none and the call
/// does nothing.
pub fn sys_prlimit64(pid: i32, self_pid: i32, res: RLimitable) -> (r: Result<Option<i32>, LxError>)
    ensures
        !(pid == 0 || pid == -1 || pid == self_pid) ==> r == Err::<Option<i32>, LxError>(
            LxError(LxError::EPERM),
        ),
        (pid == 0 || pid == -1 || pid == self_pid) ==> r == Ok::<Option<i32>, LxError>(
            RLimitable::apple_of(res.0),
        ),
{
    if !(pid == 0 || pid == -1 || pid == self_pid) {
        return Err(LxError(LxError::EPERM));
    }
    match res.to_apple() {
        Ok(a) => Ok(Some(a)),
        Err(_) => Ok(None),
    }
}

/// What `getgroups` answers.
#[derive(Debug, Clone, Copy, PartialEq, Eq, Structural)]
pub enum GroupsReply {
    /// Only the number of groups is asked for.
    Count(u32),
    /// The groups are copied to the program's list, and their number returned.
    Copy(u32),
}

/// `getgroups` with a list of `len` entries and `count` groups: the count alone for an empty
/// list, `EINVAL` where the list is too short, otherwise the copy.
pub fn sys_getgroups(len: i32, count: usize) -> (r: Result<GroupsReply, LxError>)
    ensures
        len == 0 ==> r == Ok::<GroupsReply, LxError>(GroupsReply::Count(count as u32)),
        len != 0 && (len as usize) < count ==> r == Err::<GroupsReply, LxError>(
            LxError(LxError::EINVAL),
        ),
        len != 0 && (len as usize) >= count ==> r == Ok::<GroupsReply, LxError>(
            GroupsReply::Copy(count as u32),
        ),
{
    if len == 0 {
        return Ok(GroupsReply::Count(count as u32));
    }
    if (len as usize) < count {
        return Err(LxError(LxError::EINVAL));
    }
    Ok(GroupsReply::Copy(count as u32))
}

/// The futex operation that a `futex` call performs.
#[derive(Debug, Clone, Copy, PartialEq, Eq, Structural)]
pub enum FutexRoute {
    Wait(FutexOpts),
    Wake(FutexOpts),
    WakeOp(FutexOpts),
    LockPi,
}

/// `futex`: the operation chosen by the command of `op`, with its options; `EINVAL` for the
/// other commands.
pub fn sys_futex(op: FutexOp) -> (r: Result<FutexRoute, LxError>)
    ensures
        r == match op.0 & 0x7fi32 {
            0i32 => Ok(FutexRoute::Wait(FutexOpts(op.0 & !0x7fi32))),
            1i32 => Ok(FutexRoute::Wake(FutexOpts(op.0 & !0x7fi32))),
            5i32 => Ok(FutexRoute::WakeOp(FutexOpts(op.0 & !0x7fi32))),
            6i32 => Ok(FutexRoute::LockPi),
            _ => Err(LxError(LxError::EINVAL)),
        },
{
    let cmd = op.cmd();
    let opts = op.opts();
    if cmd.0 == FutexCmd::FUTEX_WAIT {
        Ok(FutexRoute::Wait(opts))
    } else if cmd.0 == FutexCmd::FUTEX_WAKE {
        Ok(FutexRoute::Wake(opts))
    } else if cmd.0 == FutexCmd::FUTEX_WAKE_OP {
        Ok(FutexRoute::WakeOp(opts))
    } else if cmd.0 == FutexCmd::FUTEX_LOCK_PI {
        Ok(FutexRoute::LockPi)
    } else {
        Err(LxError(LxError::EINVAL))
    }
}

/// Where the bytes of `getrandom` come from.
#[derive(Debug, Clone, Copy, PartialEq, Eq, Structural)]
pub enum RandomSource {
    /// A read of the random device.
    Device,
    /// The system's generator, which fills the whole buffer.
    Generator,
}

/// `getrandom`: the random device where `GRND_RANDOM` is set, the generator otherwise.
pub fn sys_getrandom(flags: GrndFlags) -> (r: RandomSource)
    ensures
        r == if flags.0 & GrndFlags::GRND_RANDOM == GrndFlags::GRND_RANDOM {
            RandomSource::Device
        } else {
            RandomSource::Generator
        },
{
    if flags.contains(GrndFlags::GRND_RANDOM) {
        RandomSource::Device
    } else {
        RandomSource::Generator
    }
}

/// `sethostname`: the names with the node name replaced by `name`.
pub fn sys_sethostname(current: NetworkNames, name: Vec<u8>) -> (r: NetworkNames)
    ensures
        r.nodename@ == name@,
        r.domainname@ == current.domainname@,
{
    NetworkNames { nodename: name, domainname: current.domainname }
}

/// `setdomainname`: the names with the domain name replaced by `name`.
pub fn sys_setdomainname(current: NetworkNames, name: Vec<u8>) -> (r: NetworkNames)
    ensures
        r.nodename@ == current.nodename@,
        r.domainname@ == name@,
{
    NetworkNames { nodename: current.nodename, domainname: name }
}

/// `sched_getaffinity`: a CPU set of `cpusetsize` bytes with every CPU in it.
pub fn sys_sched_getaffinity(cpusetsize: usize) -> (r: Vec<u8>)
    ensures
        r@ == Seq::new(cpusetsize as nat, |i: int| 0xffu8),
{
    let mut v: Vec<u8> = Vec::new();
    let mut i: usize = 0;
    while i < cpusetsize
        invariant
            i <= cpusetsize,
            v@ == Seq::new(i as nat, |j: int| 0xffu8),
        decreases cpusetsize - i,
    {
        v.push(0xff);
        i = i + 1;
        assert(v@ =~= Seq::new(i as nat, |j: int| 0xffu8));
    }
    v
}

/// `arch_prctl` code that sets the FS base.
pub const ARCH_SET_FS: usize = 0x1002;

/// `arch_prctl` code that sets the GS base.
pub const ARCH_SET_GS: usize = 0x1001;

/// `arch_prctl`: `Ok(Some(base))` where the FS base of the emulated thread is set to `base`,
/// `EOPNOTSUPP` for the GS base and `EINVAL` for any other code.
pub fn sys_arch_prctl(op: usize, arg: usize) -> (r: Result<usize, LxError>)
    ensures
        r == if op == ARCH_SET_FS {
            Ok::<usize, LxError>(arg)
        } else if op == ARCH_SET_GS {
            Err(LxError(LxError::EOPNOTSUPP))
        } else {
            Err(LxError(LxError::EINVAL))
        },
{
    if op == ARCH_SET_FS {
        Ok(arg)
    } else if op == ARCH_SET_GS {
        Err(LxError(LxError::EOPNOTSUPP))
    } else {
        Err(LxError(LxError::EINVAL))
    }
}

/// The register value of a failed call: the negated error number, in 64 bits.
pub open spec fn error_return(e: LxError) -> u64 {
    (-(e.0 as i32)) as u64
}

/// The register value that `clone` and `fork` leave: the new thread's or process's id in the
/// parent, `0` in the child, the negated error number where the call failed.
pub fn clone_return(result: Result<i32, LxError>) -> (r: u64)
    requires
        result matches Err(e) ==> e.0 <= i32::MAX,
    ensures
        r == match result {
            Ok(n) => n as u64,
            Err(e) => error_return(e),
        },
{
    match result {
        Ok(n) => n as u64,
        Err(e) => (-(e.0 as i32)) as u64,
    }
}

/// The line reported for a system call that this layer does not implement.
pub open spec fn unsupported_message(sysno: u64, ignoring: bool) -> Seq<char> {
    " [ ! ] MacTux: Unsupported syscall: "@ + decimal(sysno as nat) + if ignoring {
        ", ignoring!\n"@
    } else {
        ", exiting!\n"@
    }
}

/// What happens on a system call that this layer does not implement.
#[derive(Debug, Clone, PartialEq, Eq)]
pub enum InvalidSyscall {
    /// The line is reported, and the call fails with `ENOSYS` (this register value).
    Ignore { message: String, ret: u64 },
    /// The line is reported, and the process ends.
    Exit { message: String },
}

/// An unimplemented system call `sysno`: ignored, failing with `ENOSYS`, where unsupported
/// calls are to be ignored; otherwise the end of the process.
pub fn sys_invalid(sysno: u64, ignore_unsupported: bool) -> (r: InvalidSyscall)
    ensures
        ignore_unsupported ==> (r matches InvalidSyscall::Ignore { message, ret } && message@
            == unsupported_message(sysno, true) && ret == error_return(LxError(LxError::ENOSYS))),
        !ignore_unsupported ==> (r matches InvalidSyscall::Exit { message } && message@
            == unsupported_message(sysno, false)),
{
    let mut message = String::from_str(" [ ! ] MacTux: Unsupported syscall: ");
    push_decimal(&mut message, sysno);
    if ignore_unsupported {
        message.append(", ignoring!\n");
        InvalidSyscall::Ignore { message, ret: (-(LxError::ENOSYS as i32)) as u64 }
    } else {
        message.append(", exiting!\n");
        InvalidSyscall::Exit { message }
    }
}

/// A system call that this layer handles, by the x86-64 number that selects it.
#[derive(Debug, Clone, Copy, PartialEq, Eq, Structural)]
pub enum Syscall {
    Read,
    Write,
    Open,
    Close,
    Stat,
    Fstat,
    Lstat,
    Poll,
    Lseek,
    Mmap,
    Mprotect,
    Munmap,
    Brk,
    RtSigaction,
    RtSigprocmask,
    RtSigreturn,
    Ioctl,
    Pread64,
    Pwrite64,
    Readv,
    Writev,
    Access,
    Pipe,
    Select,
    SchedYield,
    Mremap,
    Msync,
    Mincore,
    Madvise,
    Dup,
    Dup2,
    Pause,
    Nanosleep,
    Alarm,
    Getpid,
    Sendfile,
    Socket,
    Connect,
    Accept,
    Shutdown,
    Bind,
    Listen,
    Getsockname,
    Getpeername,
    Setsockopt,
    Getsockopt,
    Clone,
    Fork,
    Vfork,
    Execve,
    Exit,
    Wait4,
    Kill,
    Uname,
    Fcntl,
    Flock,
    Fsync,
    Fdatasync,
    Truncate,
    Ftruncate,
    Getcwd,
    Chdir,
    Fchdir,
    Rename,
    Mkdir,
    Rmdir,
    Unlink,
    Symlink,
    Readlink,
    Chown,
    Fchown,
    Umask,
    Gettimeofday,
    Getrusage,
    Sysinfo,
    Getuid,
    Getgid,
    Setuid,
    Setgid,
    Geteuid,
    Getegid,
    Setpgid,
    Getppid,
    Getpgrp,
    Getgroups,
    Getpgid,
    Uselib,
    Sysfs,
    Prctl,
    ArchPrctl,
    Sync,
    Acct,
    Sethostname,
    Setdomainname,
    Gettid,
    Listxattr,
    Llistxattr,
    Flistxattr,
    Tkill,
    Time,
    Futex,
    SchedSetaffinity,
    SchedGetaffinity,
    Getdents64,
    SetTidAddress,
    Fadvise64,
    ClockGettime,
    ExitGroup,
    Openat,
    Newfstatat,
    Pselect6,
    Ppoll,
    SetRobustList,
    Eventfd,
    Accept4,
    Eventfd2,
    Pipe2,
    Prlimit64,
    Syncfs,
    Getrandom,
    CopyFileRange,
    Statx,
    Rseq,
    Faccessat2,
    PseudoRestorectx,
}

impl Syscall {
    /// The x86-64 system call number of the call.
    pub open spec fn number(self) -> usize {
        match self {
            Syscall::Read => 0usize,
            Syscall::Write => 1usize,
            Syscall::Open => 2usize,
            Syscall::Close => 3usize,
            Syscall::Stat => 4usize,
            Syscall::Fstat => 5usize,
            Syscall::Lstat => 6usize,
            Syscall::Poll => 7usize,
            Syscall::Lseek => 8usize,
            Syscall::Mmap => 9usize,
            Syscall::Mprotect => 10usize,
            Syscall::Munmap => 11usize,
            Syscall::Brk => 12usize,
            Syscall::RtSigaction => 13usize,
            Syscall::RtSigprocmask => 14usize,
            Syscall::RtSigreturn => 15usize,
            Syscall::Ioctl => 16usize,
            Syscall::Pread64 => 17usize,
            Syscall::Pwrite64 => 18usize,
            Syscall::Readv => 19usize,
            Syscall::Writev => 20usize,
            Syscall::Access => 21usize,
            Syscall::Pipe => 22usize,
            Syscall::Select => 23usize,
            Syscall::SchedYield => 24usize,
            Syscall::Mremap => 25usize,
            Syscall::Msync => 26usize,
            Syscall::Mincore => 27usize,
            Syscall::Madvise => 28usize,
            Syscall::Dup => 32usize,
            Syscall::Dup2 => 33usize,
            Syscall::Pause => 34usize,
            Syscall::Nanosleep => 35usize,
            Syscall::Alarm => 37usize,
            Syscall::Getpid => 39usize,
            Syscall::Sendfile => 40usize,
            Syscall::Socket => 41usize,
            Syscall::Connect => 42usize,
            Syscall::Accept => 43usize,
            Syscall::Shutdown => 48usize,
            Syscall::Bind => 49usize,
            Syscall::Listen => 50usize,
            Syscall::Getsockname => 51usize,
            Syscall::Getpeername => 52usize,
            Syscall::Setsockopt => 54usize,
            Syscall::Getsockopt => 55usize,
            Syscall::Clone => 56usize,
            Syscall::Fork => 57usize,
            Syscall::Vfork => 58usize,
            Syscall::Execve => 59usize,
            Syscall::Exit => 60usize,
            Syscall::Wait4 => 61usize,
            Syscall::Kill => 62usize,
            Syscall::Uname => 63usize,
            Syscall::Fcntl => 72usize,
            Syscall::Flock => 73usize,
            Syscall::Fsync => 74usize,
            Syscall::Fdatasync => 75usize,
            Syscall::Truncate => 76usize,
            Syscall::Ftruncate => 77usize,
            Syscall::Getcwd => 79usize,
            Syscall::Chdir => 80usize,
            Syscall::Fchdir => 81usize,
            Syscall::Rename => 82usize,
            Syscall::Mkdir => 83usize,
            Syscall::Rmdir => 84usize,
            Syscall::Unlink => 87usize,
            Syscall::Symlink => 88usize,
            Syscall::Readlink => 89usize,
            Syscall::Chown => 92usize,
            Syscall::Fchown => 93usize,
            Syscall::Umask => 95usize,
            Syscall::Gettimeofday => 96usize,
            Syscall::Getrusage => 98usize,
            Syscall::Sysinfo => 99usize,
            Syscall::Getuid => 102usize,
            Syscall::Getgid => 104usize,
            Syscall::Setuid => 105usize,
            Syscall::Setgid => 106usize,
            Syscall::Geteuid => 107usize,
            Syscall::Getegid => 108usize,
            Syscall::Setpgid => 109usize,
            Syscall::Getppid => 110usize,
            Syscall::Getpgrp => 111usize,
            Syscall::Getgroups => 115usize,
            Syscall::Getpgid => 121usize,
            Syscall::Uselib => 134usize,
            Syscall::Sysfs => 139usize,
            Syscall::Prctl => 157usize,
            Syscall::ArchPrctl => 158usize,
            Syscall::Sync => 162usize,
            Syscall::Acct => 163usize,
            Syscall::Sethostname => 170usize,
            Syscall::Setdomainname => 171usize,
            Syscall::Gettid => 186usize,
            Syscall::Listxattr => 194usize,
            Syscall::Llistxattr => 195usize,
            Syscall::Flistxattr => 196usize,
            Syscall::Tkill => 200usize,
            Syscall::Time => 201usize,
            Syscall::Futex => 202usize,
            Syscall::SchedSetaffinity => 203usize,
            Syscall::SchedGetaffinity => 204usize,
            Syscall::Getdents64 => 217usize,
            Syscall::SetTidAddress => 218usize,
            Syscall::Fadvise64 => 221usize,
            Syscall::ClockGettime => 228usize,
            Syscall::ExitGroup => 231usize,
            Syscall::Openat => 257usize,
            Syscall::Newfstatat => 262usize,
            Syscall::Pselect6 => 270usize,
            Syscall::Ppoll => 271usize,
            Syscall::SetRobustList => 273usize,
            Syscall::Eventfd => 284usize,
            Syscall::Accept4 => 288usize,
            Syscall::Eventfd2 => 290usize,
            Syscall::Pipe2 => 293usize,
            Syscall::Prlimit64 => 302usize,
            Syscall::Syncfs => 306usize,
            Syscall::Getrandom => 318usize,
            Syscall::CopyFileRange => 326usize,
            Syscall::Statx => 332usize,
            Syscall::Rseq => 334usize,
            Syscall::Faccessat2 => 439usize,
            Syscall::PseudoRestorectx => 479usize,
        }
    }
}

/// The handler of system call `sysno`: the call whose number it is, `None` for the numbers that
/// this layer does not implement.
pub fn handler(sysno: usize) -> (r: Option<Syscall>)
    ensures
        forall|s: Syscall| (#[trigger] s.number() == sysno) <==> r == Some(s),
{
    match sysno {
        0 => Some(Syscall::Read),
        1 => Some(Syscall::Write),
        2 => Some(Syscall::Open),
        3 => Some(Syscall::Close),
        4 => Some(Syscall::Stat),
        5 => Some(Syscall::Fstat),
        6 => Some(Syscall::Lstat),
        7 => Some(Syscall::Poll),
        8 => Some(Syscall::Lseek),
        9 => Some(Syscall::Mmap),
        10 => Some(Syscall::Mprotect),
        11 => Some(Syscall::Munmap),
        12 => Some(Syscall::Brk),
        13 => Some(Syscall::RtSigaction),
        14 => Some(Syscall::RtSigprocmask),
        15 => Some(Syscall::RtSigreturn),
        16 => Some(Syscall::Ioctl),
        17 => Some(Syscall::Pread64),
        18 => Some(Syscall::Pwrite64),
        19 => Some(Syscall::Readv),
        20 => Some(Syscall::Writev),
        21 => Some(Syscall::Access),
        22 => Some(Syscall::Pipe),
        23 => Some(Syscall::Select),
        24 => Some(Syscall::SchedYield),
        25 => Some(Syscall::Mremap),
        26 => Some(Syscall::Msync),
        27 => Some(Syscall::Mincore),
        28 => Some(Syscall::Madvise),
        32 => Some(Syscall::Dup),
        33 => Some(Syscall::Dup2),
        34 => Some(Syscall::Pause),
        35 => Some(Syscall::Nanosleep),
        37 => Some(Syscall::Alarm),
        39 => Some(Syscall::Getpid),
        40 => Some(Syscall::Sendfile),
        41 => Some(Syscall::Socket),
        42 => Some(Syscall::Connect),
        43 => Some(Syscall::Accept),
        48 => Some(Syscall::Shutdown),
        49 => Some(Syscall::Bind),
        50 => Some(Syscall::Listen),
        51 => Some(Syscall::Getsockname),
        52 => Some(Syscall::Getpeername),
        54 => Some(Syscall::Setsockopt),
        55 => Some(Syscall::Getsockopt),
        56 => Some(Syscall::Clone),
        57 => Some(Syscall::Fork),
        58 => Some(Syscall::Vfork),
        59 => Some(Syscall::Execve),
        60 => Some(Syscall::Exit),
        61 => Some(Syscall::Wait4),
        62 => Some(Syscall::Kill),
        63 => Some(Syscall::Uname),
        72 => Some(Syscall::Fcntl),
        73 => Some(Syscall::Flock),
        74 => Some(Syscall::Fsync),
        75 => Some(Syscall::Fdatasync),
        76 => Some(Syscall::Truncate),
        77 => Some(Syscall::Ftruncate),
        79 => Some(Syscall::Getcwd),
        80 => Some(Syscall::Chdir),
        81 => Some(Syscall::Fchdir),
        82 => Some(Syscall::Rename),
        83 => Some(Syscall::Mkdir),
        84 => Some(Syscall::Rmdir),
        87 => Some(Syscall::Unlink),
        88 => Some(Syscall::Symlink),
        89 => Some(Syscall::Readlink),
        92 => Some(Syscall::Chown),
        93 => Some(Syscall::Fchown),
        95 => Some(Syscall::Umask),
        96 => Some(Syscall::Gettimeofday),
        98 => Some(Syscall::Getrusage),
        99 => Some(Syscall::Sysinfo),
        102 => Some(Syscall::Getuid),
        104 => Some(Syscall::Getgid),
        105 => Some(Syscall::Setuid),
        106 => Some(Syscall::Setgid),
        107 => Some(Syscall::Geteuid),
        108 => Some(Syscall::Getegid),
        109 => Some(Syscall::Setpgid),
        110 => Some(Syscall::Getppid),
        111 => Some(Syscall::Getpgrp),
        115 => Some(Syscall::Getgroups),
        121 => Some(Syscall::Getpgid),
        134 => Some(Syscall::Uselib),
        139 => Some(Syscall::Sysfs),
        157 => Some(Syscall::Prctl),
        158 => Some(Syscall::ArchPrctl),
        162 => Some(Syscall::Sync),
        163 => Some(Syscall::Acct),
        170 => Some(Syscall::Sethostname),
        171 => Some(Syscall::Setdomainname),
        186 => Some(Syscall::Gettid),
        194 => Some(Syscall::Listxattr),
        195 => Some(Syscall::Llistxattr),
        196 => Some(Syscall::Flistxattr),
        200 => Some(Syscall::Tkill),
        201 => Some(Syscall::Time),
        202 => Some(Syscall::Futex),
        203 => Some(Syscall::SchedSetaffinity),
        204 => Some(Syscall::SchedGetaffinity),
        217 => Some(Syscall::Getdents64),
        218 => Some(Syscall::SetTidAddress),
        221 => Some(Syscall::Fadvise64),
        228 => Some(Syscall::ClockGettime),
        231 => Some(Syscall::ExitGroup),
        257 => Some(Syscall::Openat),
        262 => Some(Syscall::Newfstatat),
        270 => Some(Syscall::Pselect6),
        271 => Some(Syscall::Ppoll),
        273 => Some(Syscall::SetRobustList),
        284 => Some(Syscall::Eventfd),
        288 => Some(Syscall::Accept4),
        290 => Some(Syscall::Eventfd2),
        293 => Some(Syscall::Pipe2),
        302 => Some(Syscall::Prlimit64),
        306 => Some(Syscall::Syncfs),
        318 => Some(Syscall::Getrandom),
        326 => Some(Syscall::CopyFileRange),
        332 => Some(Syscall::Statx),
        334 => Some(Syscall::Rseq),
        439 => Some(Syscall::Faccessat2),
        479 => Some(Syscall::PseudoRestorectx),
        _ => None,
    }
}

} // verus!
