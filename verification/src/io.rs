//! Input and output: seek origins, control commands, and waiting for several descriptors at once
//! with `poll` and `select`.

use crate::error::{apple_error, LxError};
use crate::flags::{
    apple_disjoint, convert_from_apple, convert_to_apple, flags_from_apple, flags_known, flags_to_apple,
    lemma_flags_round_trip, lemma_from_apple_entry, lemma_to_apple_entry, lemma_to_apple_fits_i16, lemma_to_apple_fits_i32,
};
use crate::fs::OpenFlags;
use crate::terminal::{apple_matches_linux, DarwinTermios, Termios, Termios2};
use crate::{FromApple, ToApple};
use vstd::prelude::*;

verus! {

/// A command of `fcntl`.
#[derive(Debug, Clone, Copy, PartialEq, Eq, Structural)]
pub struct FcntlCmd(pub u32);

impl FcntlCmd {
    pub const F_DUPFD: u32 = 0;
    pub const F_GETFD: u32 = 1;
    pub const F_SETFD: u32 = 2;
    pub const F_GETFL: u32 = 3;
    pub const F_SETFL: u32 = 4;
    pub const F_GETLK: u32 = 5;
    pub const F_SETLK: u32 = 6;
    pub const F_SETLKW: u32 = 7;
    pub const F_DUPFD_CLOEXEC: u32 = 1030;
}

/// Flags of a file descriptor.
#[derive(Debug, Clone, Copy, PartialEq, Eq, Structural)]
pub struct FdFlags(pub u32);

impl FdFlags {
    pub const FD_CLOEXEC: u32 = 1;

    /// The Linux and Darwin bits of each flag.
    pub open spec fn table() -> Seq<(u64, u64)> {
        seq![(1u64, 1u64)]
    }

    fn exec_table() -> (r: Vec<(u64, u64)>)
        ensures
            r@ == Self::table(),
    {
        let r = vec![(1u64, 1u64)];
        assert(r@ =~= Self::table());
        r
    }
}

impl FromApple for FdFlags {
    type Apple = i32;

    fn from_apple(apple: i32) -> (r: Result<Self, LxError>)
        ensures
            r == Ok::<FdFlags, LxError>(FdFlags(flags_from_apple(Self::table(), apple as u64) as u32)),
    {
        let t = Self::exec_table();
        Ok(FdFlags(convert_from_apple(t.as_slice(), apple as u64) as u32))
    }
}

impl ToApple for FdFlags {
    type Apple = i32;

    fn to_apple(self) -> (r: Result<i32, LxError>)
        ensures
            r == Ok::<i32, LxError>(flags_to_apple(Self::table(), self.0 as u64) as i32),
    {
        let t = Self::exec_table();
        Ok(convert_to_apple(t.as_slice(), self.0 as u64) as i32)
    }
}

/// What a native `fcntl` call's result is converted with.
#[derive(Debug, Clone, Copy, PartialEq, Eq, Structural)]
pub enum FcntlResult {
    /// The result is passed on as it is.
    Raw,
    /// The result is Darwin descriptor flags, passed on as Linux ones.
    FdFlags,
    /// The result is Darwin file status flags, passed on as Linux ones.
    OpenFlags,
}

/// The Darwin `fcntl` call that carries out a Linux one on a native descriptor.
#[derive(Debug, Clone, Copy, PartialEq, Eq, Structural)]
pub enum NativeFcntl {
    /// `fcntl(fd, cmd)` or, with an argument, `fcntl(fd, cmd, arg)`; the result converted.
    Call { cmd: i32, arg: Option<i64>, result: FcntlResult },
    /// Read the lock that would block the one at `arg` and write it back there.
    GetLock,
    /// Set the lock at `arg`, waiting for it when `wait` is set.
    SetLock { wait: bool },
}

/// The Darwin `fcntl` call that carries out the Linux `cmd` with argument `arg`, or `EINVAL`
/// for a command without one.
pub open spec fn native_fcntl_call(cmd: u32, arg: usize) -> Result<NativeFcntl, LxError> {
    if cmd == FcntlCmd::F_DUPFD {
        Ok(NativeFcntl::Call { cmd: 0, arg: Some(arg as i64), result: FcntlResult::Raw })
    } else if cmd == FcntlCmd::F_GETFD {
        Ok(NativeFcntl::Call { cmd: 1, arg: None, result: FcntlResult::FdFlags })
    } else if cmd == FcntlCmd::F_SETFD {
        Ok(
            NativeFcntl::Call {
                cmd: 2,
                arg: Some(flags_to_apple(FdFlags::table(), (arg as u32) as u64) as i32 as i64),
                result: FcntlResult::Raw,
            },
        )
    } else if cmd == FcntlCmd::F_GETFL {
        Ok(NativeFcntl::Call { cmd: 3, arg: None, result: FcntlResult::OpenFlags })
    } else if cmd == FcntlCmd::F_SETFL {
        Ok(
            NativeFcntl::Call {
                cmd: 4,
                arg: Some(flags_to_apple(OpenFlags::table(), (arg as u32) as u64) as i32 as i64),
                result: FcntlResult::Raw,
            },
        )
    } else if cmd == FcntlCmd::F_GETLK {
        Ok(NativeFcntl::GetLock)
    } else if cmd == FcntlCmd::F_SETLK {
        Ok(NativeFcntl::SetLock { wait: false })
    } else if cmd == FcntlCmd::F_SETLKW {
        Ok(NativeFcntl::SetLock { wait: true })
    } else if cmd == FcntlCmd::F_DUPFD_CLOEXEC {
        Ok(NativeFcntl::Call { cmd: 67, arg: Some(arg as i64), result: FcntlResult::Raw })
    } else {
        Err(LxError(LxError::EINVAL))
    }
}

/// Decides how `fcntl` with command `cmd` and argument `arg` runs on a native descriptor.
pub fn native_fcntl(cmd: FcntlCmd, arg: usize) -> (r: Result<NativeFcntl, LxError>)
    ensures
        r == native_fcntl_call(cmd.0, arg),
{
    if cmd.0 == FcntlCmd::F_DUPFD {
        Ok(NativeFcntl::Call { cmd: 0, arg: Some(arg as i64), result: FcntlResult::Raw })
    } else if cmd.0 == FcntlCmd::F_GETFD {
        Ok(NativeFcntl::Call { cmd: 1, arg: None, result: FcntlResult::FdFlags })
    } else if cmd.0 == FcntlCmd::F_SETFD {
        let a = match FdFlags(arg as u32).to_apple() {
            Ok(a) => a,
            Err(e) => return Err(e),
        };
        Ok(NativeFcntl::Call { cmd: 2, arg: Some(a as i64), result: FcntlResult::Raw })
    } else if cmd.0 == FcntlCmd::F_GETFL {
        Ok(NativeFcntl::Call { cmd: 3, arg: None, result: FcntlResult::OpenFlags })
    } else if cmd.0 == FcntlCmd::F_SETFL {
        let a = match OpenFlags(arg as u32).to_apple() {
            Ok(a) => a,
            Err(e) => return Err(e),
        };
        Ok(NativeFcntl::Call { cmd: 4, arg: Some(a as i64), result: FcntlResult::Raw })
    } else if cmd.0 == FcntlCmd::F_GETLK {
        Ok(NativeFcntl::GetLock)
    } else if cmd.0 == FcntlCmd::F_SETLK {
        Ok(NativeFcntl::SetLock { wait: false })
    } else if cmd.0 == FcntlCmd::F_SETLKW {
        Ok(NativeFcntl::SetLock { wait: true })
    } else if cmd.0 == FcntlCmd::F_DUPFD_CLOEXEC {
        Ok(NativeFcntl::Call { cmd: 67, arg: Some(arg as i64), result: FcntlResult::Raw })
    } else {
        Err(LxError(LxError::EINVAL))
    }
}

/// What a native `fcntl` call's result `raw` gives back to the Linux caller.
pub fn fcntl_result(conv: FcntlResult, raw: i32) -> (r: i32)
    ensures
        r == match conv {
            FcntlResult::Raw => raw,
            FcntlResult::FdFlags => (flags_from_apple(FdFlags::table(), raw as u64) as u32) as i32,
            FcntlResult::OpenFlags => (flags_from_apple(OpenFlags::table(), raw as u64) as u32) as i32,
        },
{
    match conv {
        FcntlResult::Raw => raw,
        FcntlResult::FdFlags => match FdFlags::from_apple(raw) {
            Ok(f) => f.0 as i32,
            Err(_) => raw,
        },
        FcntlResult::OpenFlags => match OpenFlags::from_apple(raw) {
            Ok(f) => f.0 as i32,
            Err(_) => raw,
        },
    }
}

/// A command of `ioctl`.
#[derive(Debug, Clone, Copy, PartialEq, Eq, Structural)]
pub struct IoctlCmd(pub u32);

impl IoctlCmd {
    pub const TCGETS: u32 = 0x5401;
    pub const TCSETS: u32 = 0x5402;
    pub const TCSETSW: u32 = 0x5403;
    pub const TCSETSF: u32 = 0x5404;
    pub const TCXONC: u32 = 0x540A;
    pub const TIOCGPGRP: u32 = 0x540F;
    pub const TIOCSPGRP: u32 = 0x5410;
    pub const TIOCGWINSZ: u32 = 0x5413;
    pub const TIOCSWINSZ: u32 = 0x5414;
    pub const TCGETS2: u32 = 0x802C542A;
    pub const TCSETS2: u32 = 0x402C542B;
    pub const TCSETSW2: u32 = 0x402C542C;
    pub const TCSETSF2: u32 = 0x402C542D;
}

/// Darwin `TCSANOW`.
pub const TCSANOW: i32 = 0;
/// Darwin `TCSADRAIN`.
pub const TCSADRAIN: i32 = 1;
/// Darwin `TCSAFLUSH`.
pub const TCSAFLUSH: i32 = 2;

/// The Darwin terminal operation that carries out a Linux `ioctl` on a native descriptor.
#[derive(Debug, Clone, Copy, PartialEq, Eq, Structural)]
pub enum NativeIoctl {
    /// Read the foreground process group into the `i32` at the argument.
    GetPgrp,
    /// Set the foreground process group from the `i32` at the argument.
    SetPgrp,
    /// Read the terminal attributes into the argument, as `termios2` when `extended`.
    GetAttr { extended: bool },
    /// Set the terminal attributes at the argument (`termios2` when `extended`), at `when`.
    SetAttr { extended: bool, when: i32 },
    /// Read the window size into the argument.
    GetWinSize,
    /// Set the window size from the argument.
    SetWinSize,
    /// Suspend or resume output or input with the Darwin action `action`.
    Flow { action: i32 },
}

/// The Darwin operation that carries out `ioctl` command `cmd` with argument `arg`, or
/// `EINVAL`.
pub open spec fn native_ioctl_op(cmd: u32, arg: usize) -> Result<NativeIoctl, LxError> {
    if cmd == IoctlCmd::TIOCGPGRP {
        Ok(NativeIoctl::GetPgrp)
    } else if cmd == IoctlCmd::TIOCSPGRP {
        Ok(NativeIoctl::SetPgrp)
    } else if cmd == IoctlCmd::TCGETS {
        Ok(NativeIoctl::GetAttr { extended: false })
    } else if cmd == IoctlCmd::TCSETS {
        Ok(NativeIoctl::SetAttr { extended: false, when: TCSANOW })
    } else if cmd == IoctlCmd::TCSETSW {
        Ok(NativeIoctl::SetAttr { extended: false, when: TCSADRAIN })
    } else if cmd == IoctlCmd::TCSETSF {
        Ok(NativeIoctl::SetAttr { extended: false, when: TCSAFLUSH })
    } else if cmd == IoctlCmd::TIOCGWINSZ {
        Ok(NativeIoctl::GetWinSize)
    } else if cmd == IoctlCmd::TIOCSWINSZ {
        Ok(NativeIoctl::SetWinSize)
    } else if cmd == IoctlCmd::TCGETS2 {
        Ok(NativeIoctl::GetAttr { extended: true })
    } else if cmd == IoctlCmd::TCSETS2 {
        Ok(NativeIoctl::SetAttr { extended: true, when: TCSANOW })
    } else if cmd == IoctlCmd::TCSETSW2 {
        Ok(NativeIoctl::SetAttr { extended: true, when: TCSADRAIN })
    } else if cmd == IoctlCmd::TCSETSF2 {
        Ok(NativeIoctl::SetAttr { extended: true, when: TCSAFLUSH })
    } else if cmd == IoctlCmd::TCXONC {
        match crate::terminal::TcFlowAction::apple_of(arg as u32) {
            Some(a) => Ok(NativeIoctl::Flow { action: a }),
            None => Err(LxError(LxError::EINVAL)),
        }
    } else {
        Err(LxError(LxError::EINVAL))
    }
}

/// Decides how `ioctl` with command `cmd` and argument `arg` runs on a native descriptor.
pub fn native_ioctl(cmd: IoctlCmd, arg: usize) -> (r: Result<NativeIoctl, LxError>)
    ensures
        r == native_ioctl_op(cmd.0, arg),
{
    let c = cmd.0;
    if c == IoctlCmd::TIOCGPGRP {
        Ok(NativeIoctl::GetPgrp)
    } else if c == IoctlCmd::TIOCSPGRP {
        Ok(NativeIoctl::SetPgrp)
    } else if c == IoctlCmd::TCGETS {
        Ok(NativeIoctl::GetAttr { extended: false })
    } else if c == IoctlCmd::TCSETS {
        Ok(NativeIoctl::SetAttr { extended: false, when: TCSANOW })
    } else if c == IoctlCmd::TCSETSW {
        Ok(NativeIoctl::SetAttr { extended: false, when: TCSADRAIN })
    } else if c == IoctlCmd::TCSETSF {
        Ok(NativeIoctl::SetAttr { extended: false, when: TCSAFLUSH })
    } else if c == IoctlCmd::TIOCGWINSZ {
        Ok(NativeIoctl::GetWinSize)
    } else if c == IoctlCmd::TIOCSWINSZ {
        Ok(NativeIoctl::SetWinSize)
    } else if c == IoctlCmd::TCGETS2 {
        Ok(NativeIoctl::GetAttr { extended: true })
    } else if c == IoctlCmd::TCSETS2 {
        Ok(NativeIoctl::SetAttr { extended: true, when: TCSANOW })
    } else if c == IoctlCmd::TCSETSW2 {
        Ok(NativeIoctl::SetAttr { extended: true, when: TCSADRAIN })
    } else if c == IoctlCmd::TCSETSF2 {
        Ok(NativeIoctl::SetAttr { extended: true, when: TCSAFLUSH })
    } else if c == IoctlCmd::TCXONC {
        match crate::terminal::TcFlowAction(arg as u32).to_apple() {
            Ok(a) => Ok(NativeIoctl::Flow { action: a }),
            Err(e) => Err(e),
        }
    } else {
        Err(LxError(LxError::EINVAL))
    }
}

/// The outcome of a native `ioctl` after the Darwin call returned `ret`: `0` where it succeeded,
/// the failure that the error number `errno` describes where it returned `-1`.
pub fn native_ioctl_finish(ret: i32, errno: i32) -> (r: Result<i32, LxError>)
    ensures
        r == if ret == -1 {
            Err(apple_error(errno))
        } else {
            Ok::<i32, LxError>(0)
        },
{
    if ret == -1 {
        Err(LxError::from_apple_or_eio(errno))
    } else {
        Ok(0)
    }
}

/// The terminal attributes read at the argument of a `TCSETS` family command: `termios`, or
/// `termios2` for the extended commands.
#[derive(Debug, Clone, Copy)]
pub enum TermiosArg {
    Plain(Termios),
    Extended(Termios2),
}

/// What `tcsetattr` is given for a `SetAttr` operation at `when`: that mode and the Darwin
/// attributes of the Linux ones read at the argument.
pub fn tcsetattr_args(when: i32, arg: TermiosArg) -> (r: (i32, DarwinTermios))
    ensures
        r.0 == when,
        match arg {
            TermiosArg::Plain(t) => {
                &&& apple_matches_linux(r.1, t.c_iflag, t.c_oflag, t.c_cflag, t.c_lflag, t.c_cc)
                &&& r.1.c_ispeed == 0
                &&& r.1.c_ospeed == 0
            },
            TermiosArg::Extended(t) => {
                &&& apple_matches_linux(r.1, t.c_iflag, t.c_oflag, t.c_cflag, t.c_lflag, t.c_cc)
                &&& r.1.c_ispeed == t.c_ispeed as u64
                &&& r.1.c_ospeed == t.c_ospeed as u64
            },
        },
{
    let apple = match arg {
        TermiosArg::Plain(t) => t.to_apple(),
        TermiosArg::Extended(t) => t.to_apple(),
    };
    (when, apple.unwrap())
}

/// A record lock as Linux lays it out.
#[derive(Debug, Clone, Copy, PartialEq, Eq, Structural)]
pub struct Flock {
    pub l_type: i16,
    pub l_whence: i16,
    pub l_start: i64,
    pub l_len: i64,
    pub l_pid: i32,
}

/// A record lock as Darwin lays it out.
#[derive(Debug, Clone, Copy, PartialEq, Eq, Structural)]
pub struct DarwinFlock {
    pub l_start: i64,
    pub l_len: i64,
    pub l_pid: i32,
    pub l_type: i16,
    pub l_whence: i16,
}

impl Flock {
    pub const F_RDLCK: i16 = 0;
    pub const F_WRLCK: i16 = 1;
    pub const F_UNLCK: i16 = 2;

    /// The Darwin lock type of a Linux one: read 1, unlock 2, write 3.
    pub open spec fn apple_type(t: i16) -> Option<i16> {
        if t == Self::F_RDLCK {
            Some(1i16)
        } else if t == Self::F_WRLCK {
            Some(3i16)
        } else if t == Self::F_UNLCK {
            Some(2i16)
        } else {
            None
        }
    }

    /// The Linux lock type of a Darwin one.
    pub open spec fn linux_type(a: i16) -> Option<i16> {
        if a == 1 {
            Some(Self::F_RDLCK)
        } else if a == 3 {
            Some(Self::F_WRLCK)
        } else if a == 2 {
            Some(Self::F_UNLCK)
        } else {
            None
        }
    }

    /// The lock in Darwin's layout; `EINVAL` for an unknown lock type.
    pub open spec fn apple_flock(self) -> Result<DarwinFlock, LxError> {
        match Flock::apple_type(self.l_type) {
            Some(t) => Ok(
                DarwinFlock {
                    l_start: self.l_start,
                    l_len: self.l_len,
                    l_pid: self.l_pid,
                    l_type: t,
                    l_whence: self.l_whence,
                },
            ),
            None => Err(LxError(LxError::EINVAL)),
        }
    }

    /// The Darwin lock `apple` in Linux's layout; `EINVAL` for an unknown lock type.
    pub open spec fn linux_flock(apple: DarwinFlock) -> Result<Flock, LxError> {
        match Flock::linux_type(apple.l_type) {
            Some(t) => Ok(
                Flock {
                    l_type: t,
                    l_whence: apple.l_whence,
                    l_start: apple.l_start,
                    l_len: apple.l_len,
                    l_pid: apple.l_pid,
                },
            ),
            None => Err(LxError(LxError::EINVAL)),
        }
    }
}

impl ToApple for Flock {
    type Apple = DarwinFlock;

    /// The same lock in Darwin's layout; `EINVAL` for an unknown lock type.
    fn to_apple(self) -> (r: Result<DarwinFlock, LxError>)
        ensures
            r == self.apple_flock(),
    {
        let t: i16 = if self.l_type == Flock::F_RDLCK {
            1
        } else if self.l_type == Flock::F_WRLCK {
            3
        } else if self.l_type == Flock::F_UNLCK {
            2
        } else {
            return Err(LxError(LxError::EINVAL));
        };
        Ok(DarwinFlock {
            l_start: self.l_start,
            l_len: self.l_len,
            l_pid: self.l_pid,
            l_type: t,
            l_whence: self.l_whence,
        })
    }
}

impl FromApple for Flock {
    type Apple = DarwinFlock;

    /// The same lock in Linux's layout; `EINVAL` for an unknown lock type.
    fn from_apple(apple: DarwinFlock) -> (r: Result<Self, LxError>)
        ensures
            r == Flock::linux_flock(apple),
    {
        let t: i16 = if apple.l_type == 1 {
            Flock::F_RDLCK
        } else if apple.l_type == 3 {
            Flock::F_WRLCK
        } else if apple.l_type == 2 {
            Flock::F_UNLCK
        } else {
            return Err(LxError(LxError::EINVAL));
        };
        Ok(Flock {
            l_type: t,
            l_whence: apple.l_whence,
            l_start: apple.l_start,
            l_len: apple.l_len,
            l_pid: apple.l_pid,
        })
    }
}

/// Darwin `F_GETLK`.
pub const APPLE_F_GETLK: i32 = 7;
/// Darwin `F_SETLK`.
pub const APPLE_F_SETLK: i32 = 8;
/// Darwin `F_SETLKW`.
pub const APPLE_F_SETLKW: i32 = 9;

/// The Darwin `fcntl` command and lock record of a lock operation on the Linux lock `lock` read
/// at the argument: `F_GETLK`, which only asks which lock would block it, for `GetLock`;
/// `F_SETLK` or the waiting `F_SETLKW` for `SetLock`. `EINVAL` for an unknown lock type, before
/// any call; `None` for an operation that is no lock operation.
pub fn fcntl_lock_request(op: NativeFcntl, lock: Flock) -> (r: Option<Result<(i32, DarwinFlock), LxError>>)
    ensures
        r == match op {
            NativeFcntl::GetLock => Some(
                match lock.apple_flock() {
                    Ok(a) => Ok((APPLE_F_GETLK, a)),
                    Err(e) => Err(e),
                },
            ),
            NativeFcntl::SetLock { wait } => Some(
                match lock.apple_flock() {
                    Ok(a) => Ok((if wait { APPLE_F_SETLKW } else { APPLE_F_SETLK }, a)),
                    Err(e) => Err(e),
                },
            ),
            _ => None,
        },
{
    let cmd = match op {
        NativeFcntl::GetLock => APPLE_F_GETLK,
        NativeFcntl::SetLock { wait } => if wait {
            APPLE_F_SETLKW
        } else {
            APPLE_F_SETLK
        },
        _ => return None,
    };
    match lock.to_apple() {
        Ok(a) => Some(Ok((cmd, a))),
        Err(e) => Some(Err(e)),
    }
}

/// The outcome of Darwin's `F_GETLK` that returned `ret` and reported the lock `reported`: the
/// failure that `errno` describes where it returned `-1`, and then nothing is written back;
/// otherwise the result and the lock written back to the caller in Linux's layout (`EINVAL`
/// where Darwin reported an unknown lock type).
pub fn fcntl_get_lock_reply(ret: i32, errno: i32, reported: DarwinFlock) -> (r: Result<(i32, Flock), LxError>)
    ensures
        r == if ret == -1 {
            Err(apple_error(errno))
        } else {
            match Flock::linux_flock(reported) {
                Ok(f) => Ok((ret, f)),
                Err(e) => Err(e),
            }
        },
{
    if ret == -1 {
        return Err(LxError::from_apple_or_eio(errno));
    }
    match Flock::from_apple(reported) {
        Ok(f) => Ok((ret, f)),
        Err(e) => Err(e),
    }
}

/// The outcome of a native `fcntl` call `Call` after Darwin returned `ret`: the failure that
/// `errno` describes where it returned `-1`, otherwise the result converted as `conv` says.
pub fn native_fcntl_finish(conv: FcntlResult, ret: i32, errno: i32) -> (r: Result<i32, LxError>)
    ensures
        r == if ret == -1 {
            Err(apple_error(errno))
        } else {
            Ok::<i32, LxError>(
                match conv {
                    FcntlResult::Raw => ret,
                    FcntlResult::FdFlags => (flags_from_apple(FdFlags::table(), ret as u64) as u32) as i32,
                    FcntlResult::OpenFlags => (flags_from_apple(OpenFlags::table(), ret as u64) as u32) as i32,
                },
            )
        },
{
    if ret == -1 {
        Err(LxError::from_apple_or_eio(errno))
    } else {
        Ok(fcntl_result(conv, ret))
    }
}

/// Events that `poll` waits for and reports.
#[derive(Debug, Clone, Copy, PartialEq, Eq, Structural)]
pub struct PollEvents(pub u16);

impl PollEvents {
    pub const POLLIN: u16 = 0x1;
    pub const POLLPRI: u16 = 0x2;
    pub const POLLOUT: u16 = 0x4;
    pub const POLLERR: u16 = 0x8;
    pub const POLLHUP: u16 = 0x10;
    pub const POLLNVAL: u16 = 0x20;

    /// The Linux and Darwin bits of each event.
    pub open spec fn table() -> Seq<(u64, u64)> {
        seq![(0x1u64, 0x1u64), (0x2, 0x2), (0x4, 0x4), (0x8, 0x8), (0x10, 0x10), (0x20, 0x20)]
    }

    fn exec_table() -> (r: Vec<(u64, u64)>)
        ensures
            r@ == Self::table(),
    {
        let r = vec![(0x1u64, 0x1u64), (0x2, 0x2), (0x4, 0x4), (0x8, 0x8), (0x10, 0x10), (0x20, 0x20)];
        assert(r@ =~= Self::table());
        r
    }

    /// The Darwin events of a Linux event set.
    pub open spec fn apple_bits(self) -> i16 {
        flags_to_apple(Self::table(), self.0 as u64) as i16
    }

    /// The Linux event set of Darwin events.
    pub open spec fn from_apple_bits(apple: i16) -> PollEvents {
        PollEvents(flags_from_apple(Self::table(), apple as u64) as u16)
    }

    /// Converts to Darwin events.
    pub fn to_apple(self) -> (r: i16)
        ensures
            r == self.apple_bits(),
    {
        let t = Self::exec_table();
        convert_to_apple(t.as_slice(), self.0 as u64) as i16
    }

    /// Converts from Darwin events.
    pub fn from_apple(apple: i16) -> (r: PollEvents)
        ensures
            r == Self::from_apple_bits(apple),
    {
        let t = Self::exec_table();
        PollEvents(convert_from_apple(t.as_slice(), apple as u64) as u16)
    }
}

/// A descriptor that `poll` waits on, the events it waits for and the events that happened.
#[derive(Debug, Clone, Copy, PartialEq, Eq, Structural)]
pub struct PollFd {
    pub fd: i32,
    pub events: PollEvents,
    pub revents: PollEvents,
}

/// How a `poll` call is split between Darwin and the server: the native descriptors with their
/// Darwin events, the virtual descriptors with their events, and for each virtual descriptor
/// the position of the entry that reports it.
#[derive(Debug, Clone)]
pub struct PollPlan {
    pub apple_fds: Vec<(i32, i16)>,
    pub virtual_fds: Vec<(u64, u16)>,
    pub virtual_fd_map: Vec<(u64, usize)>,
}

/// The native entries among the first `n`: descriptor and Darwin events.
pub open spec fn native_polls(fds: Seq<PollFd>, vfds: Seq<Option<u64>>, n: int) -> Seq<(i32, i16)>
    decreases n,
{
    if n <= 0 {
        Seq::empty()
    } else {
        let prev = native_polls(fds, vfds, n - 1);
        if vfds[n - 1] is None {
            prev.push((fds[n - 1].fd, fds[n - 1].events.apple_bits()))
        } else {
            prev
        }
    }
}

/// The virtual entries among the first `n`: virtual descriptor and events.
pub open spec fn virtual_polls(fds: Seq<PollFd>, vfds: Seq<Option<u64>>, n: int) -> Seq<(u64, u16)>
    decreases n,
{
    if n <= 0 {
        Seq::empty()
    } else {
        let prev = virtual_polls(fds, vfds, n - 1);
        match vfds[n - 1] {
            Some(v) => prev.push((v, fds[n - 1].events.0)),
            None => prev,
        }
    }
}

/// The position of the last of the first `n` entries that stands for virtual descriptor `v`.
pub open spec fn last_entry_of(vfds: Seq<Option<u64>>, v: u64, n: int) -> Option<int>
    decreases n,
{
    if n <= 0 {
        None
    } else if vfds[n - 1] == Some(v) {
        Some(n - 1)
    } else {
        last_entry_of(vfds, v, n - 1)
    }
}

/// Looks up the entry of virtual descriptor `v` in a map where later pairs win.
fn map_lookup(map: &Vec<(u64, usize)>, v: u64) -> (r: Option<usize>)
    ensures
        match r {
            Some(i) => exists|k: int|
                0 <= k < map@.len() && map@[k] == (v, i) && forall|j: int|
                    k < j < map@.len() ==> map@[j].0 != v,
            None => forall|j: int| 0 <= j < map@.len() ==> map@[j].0 != v,
        },
{
    let mut k = map.len();
    while k > 0
        invariant
            k <= map@.len(),
            forall|j: int| k <= j < map@.len() ==> map@[j].0 != v,
        decreases k,
    {
        k = k - 1;
        if map[k].0 == v {
            return Some(map[k].1);
        }
    }
    None
}

impl PollPlan {
    /// Splits a `poll` call: `vfds[i]` is the virtual descriptor behind `fds[i]`, if any.
    pub fn new(fds: &[PollFd], vfds: &[Option<u64>]) -> (r: Self)
        requires
            fds@.len() == vfds@.len(),
        ensures
            r.apple_fds@ == native_polls(fds@, vfds@, fds@.len() as int),
            r.virtual_fds@ == virtual_polls(fds@, vfds@, fds@.len() as int),
            forall|v: u64|
                #[trigger] last_entry_of(vfds@, v, fds@.len() as int) == match map_last(r.virtual_fd_map@, v) {
                    Some(i) => Some(i as int),
                    None => None::<int>,
                },
    {
        let mut apple_fds: Vec<(i32, i16)> = Vec::new();
        let mut virtual_fds: Vec<(u64, u16)> = Vec::new();
        let mut virtual_fd_map: Vec<(u64, usize)> = Vec::new();
        let mut n: usize = 0;
        while n < fds.len()
            invariant
                n <= fds@.len() == vfds@.len(),
                apple_fds@ == native_polls(fds@, vfds@, n as int),
                virtual_fds@ == virtual_polls(fds@, vfds@, n as int),
                forall|v: u64|
                    #[trigger] last_entry_of(vfds@, v, n as int) == match map_last(virtual_fd_map@, v) {
                        Some(i) => Some(i as int),
                        None => None::<int>,
                    },
                forall|k: int| 0 <= k < virtual_fd_map@.len() ==> (#[trigger] virtual_fd_map@[k]).1 < n,
            decreases fds@.len() - n,
        {
            let poll_fd = fds[n];
            let ghost old_map = virtual_fd_map@;
            match vfds[n] {
                Some(vfd) => {
                    virtual_fds.push((vfd, poll_fd.events.0));
                    virtual_fd_map.push((vfd, n));
                    assert forall|v: u64| #[trigger] last_entry_of(vfds@, v, n + 1) == match map_last(
                        virtual_fd_map@,
                        v,
                    ) {
                        Some(i) => Some(i as int),
                        None => None::<int>,
                    } by {
                        assert(virtual_fd_map@.drop_last() =~= old_map);
                        assert(last_entry_of(vfds@, v, n as int) == match map_last(old_map, v) {
                            Some(i) => Some(i as int),
                            None => None::<int>,
                        });
                    }
                },
                None => {
                    let ev = poll_fd.events.to_apple();
                    apple_fds.push((poll_fd.fd, ev));
                    assert forall|v: u64| #[trigger] last_entry_of(vfds@, v, n + 1) == last_entry_of(
                        vfds@,
                        v,
                        n as int,
                    ) by {}
                },
            }
            n = n + 1;
        }
        PollPlan { apple_fds, virtual_fds, virtual_fd_map }
    }
}

/// The entry that the last pair for `v` in `map` names.
pub open spec fn map_last(map: Seq<(u64, usize)>, v: u64) -> Option<usize>
    decreases map.len(),
{
    if map.len() == 0 {
        None
    } else if map.last().0 == v {
        Some(map.last().1)
    } else {
        map_last(map.drop_last(), v)
    }
}

/// The Darwin timeout of `poll` in milliseconds: `-1` to wait forever, otherwise the
/// milliseconds cut to 32 bits.
pub fn poll_timeout(millis: Option<u128>) -> (r: i32)
    ensures
        r == match millis {
            None => -1i32,
            Some(ms) => ms as i32,
        },
{
    match millis {
        None => -1,
        Some(ms) => ms as i32,
    }
}

/// The server's answer to the virtual part of a `poll` call.
#[derive(Debug, Clone, Copy, PartialEq, Eq, Structural)]
pub enum PollReply {
    /// No virtual descriptor is ready.
    Nothing,
    /// The virtual descriptor is ready with these events.
    Ready(u64, u16),
    /// The server failed the wait.
    Failed(LxError),
}

/// The number of native entries among the first `n`.
pub open spec fn native_count(vfds: Seq<Option<u64>>, n: int) -> int
    decreases n,
{
    if n <= 0 {
        0
    } else if vfds[n - 1] is None {
        native_count(vfds, n - 1) + 1
    } else {
        native_count(vfds, n - 1)
    }
}

/// The events reported for entry `i` after a `poll` call: for a native descriptor, what Darwin
/// reported at its place among the native entries (the native descriptors were handed to Darwin
/// in order, and the server connection after them), so that a virtual descriptor listed before
/// it does not shift its report onto another entry; for a virtual descriptor, the server's
/// report where it names that descriptor; otherwise unchanged. The server connection's own
/// events go to no entry.
pub open spec fn reported_events(
    old: PollFd,
    i: int,
    apple_revents: Seq<i16>,
    vfds: Seq<Option<u64>>,
    reply: Option<PollReply>,
) -> PollEvents {
    if vfds[i] is None {
        let k = native_count(vfds, i);
        if k < apple_revents.len() {
            PollEvents::from_apple_bits(apple_revents[k])
        } else {
            old.revents
        }
    } else {
        match reply {
            Some(PollReply::Ready(v, ev)) => if last_entry_of(vfds, v, vfds.len() as int) == Some(i) {
                PollEvents(ev)
            } else {
                old.revents
            },
            _ => old.revents,
        }
    }
}

/// Completes a `poll` call: `ready` is Darwin's count, `errno` its error number where the count
/// is `-1`; `apple_revents` are the events Darwin reported for the native descriptors and, after
/// them, the server connection; `reply` is the server's answer when virtual descriptors were
/// waited on. A failure of Darwin's `poll` or of the server fails the call and changes no entry.
pub fn poll_finish(
    fds: &mut Vec<PollFd>,
    vfds: &[Option<u64>],
    plan: &PollPlan,
    apple_revents: &[i16],
    reply: Option<PollReply>,
    ready: i32,
    errno: i32,
) -> (r: Result<u32, LxError>)
    requires
        old(fds)@.len() == vfds@.len(),
        forall|v: u64| #[trigger] last_entry_of(vfds@, v, vfds@.len() as int) == match map_last(
            plan.virtual_fd_map@,
            v,
        ) {
            Some(i) => Some(i as int),
            None => None::<int>,
        },
    ensures
        ready == -1 ==> r == Err::<u32, LxError>(apple_error(errno)) && final(fds)@ == old(fds)@,
        ready != -1 ==> (reply matches Some(PollReply::Failed(e)) ==> (r == Err::<u32, LxError>(e)
            && final(fds)@ == old(fds)@)),
        ready != -1 && !(reply matches Some(PollReply::Failed(_))) ==> {
            &&& r == Ok::<u32, LxError>(ready as u32)
            &&& final(fds)@.len() == old(fds)@.len()
            &&& forall|i: int|
                0 <= i < old(fds)@.len() ==> (#[trigger] final(fds)@[i]) == (PollFd {
                    revents: reported_events(old(fds)@[i], i, apple_revents@, vfds@, reply),
                    ..old(fds)@[i]
                })
        },
{
    if ready == -1 {
        return Err(LxError::from_apple_or_eio(errno));
    }
    let mut target: Option<(usize, u16)> = None;
    match reply {
        Some(PollReply::Failed(e)) => {
            return Err(e);
        },
        Some(PollReply::Ready(vfd, revent)) => {
            match map_lookup(&plan.virtual_fd_map, vfd) {
                Some(i) => {
                    proof {
                        lemma_map_last_found(plan.virtual_fd_map@, vfd, i);
                        assert(last_entry_of(vfds@, vfd, vfds@.len() as int) == Some(i as int));
                    }
                    target = Some((i, revent));
                },
                None => {
                    proof {
                        lemma_map_last_absent(plan.virtual_fd_map@, vfd);
                    }
                },
            }
        },
        _ => {},
    }
    let ghost start = fds@;
    let mut k: usize = 0;
    let mut i: usize = 0;
    while i < fds.len()
        invariant
            i <= fds@.len() == start.len() == vfds@.len(),
            k == native_count(vfds@, i as int),
            k <= i,
            !(reply matches Some(PollReply::Failed(_))),
            match reply {
                Some(PollReply::Ready(v, ev)) => match target {
                    Some((t, tev)) => tev == ev && last_entry_of(vfds@, v, vfds@.len() as int)
                        == Some(t as int),
                    None => last_entry_of(vfds@, v, vfds@.len() as int) is None,
                },
                _ => target is None,
            },
            forall|j: int| 0 <= j < i ==> (#[trigger] fds@[j]) == (PollFd {
                revents: reported_events(start[j], j, apple_revents@, vfds@, reply),
                ..start[j]
            }),
            forall|j: int| i <= j < fds@.len() ==> (#[trigger] fds@[j]) == start[j],
        decreases fds@.len() - i,
    {
        let mut e = fds[i];
        match vfds[i] {
            None => {
                if k < apple_revents.len() {
                    e.revents = PollEvents::from_apple(apple_revents[k]);
                }
                k = k + 1;
            },
            Some(_) => {
                match target {
                    Some((t, tev)) => {
                        if t == i {
                            e.revents = PollEvents(tev);
                        }
                    },
                    None => {},
                }
            },
        }
        fds.set(i, e);
        i = i + 1;
    }
    Ok(ready as u32)
}

proof fn lemma_map_last_found(map: Seq<(u64, usize)>, v: u64, i: usize)
    requires
        exists|k: int|
            0 <= k < map.len() && map[k] == (v, i) && forall|j: int| k < j < map.len() ==> map[j].0 != v,
    ensures
        map_last(map, v) == Some(i),
    decreases map.len(),
{
    let k = choose|k: int|
        0 <= k < map.len() && map[k] == (v, i) && forall|j: int| k < j < map.len() ==> map[j].0 != v;
    if k < map.len() - 1 {
        assert(map.drop_last()[k] == map[k]);
        assert forall|j: int| k < j < map.drop_last().len() implies map.drop_last()[j].0 != v by {
            assert(map.drop_last()[j] == map[j]);
        }
        lemma_map_last_found(map.drop_last(), v, i);
    }
}

proof fn lemma_map_last_absent(map: Seq<(u64, usize)>, v: u64)
    requires
        forall|j: int| 0 <= j < map.len() ==> map[j].0 != v,
    ensures
        map_last(map, v) is None,
    decreases map.len(),
{
    if map.len() > 0 {
        assert forall|j: int| 0 <= j < map.drop_last().len() implies map.drop_last()[j].0 != v by {
            assert(map.drop_last()[j] == map[j]);
        }
        lemma_map_last_absent(map.drop_last(), v);
    }
}

/// Where a seek offset counts from.
#[derive(Debug, Clone, Copy, PartialEq, Eq, Structural)]
pub struct Whence(pub u32);

impl Whence {
    pub const SEEK_SET: u32 = 0;
    pub const SEEK_CUR: u32 = 1;
    pub const SEEK_END: u32 = 2;

    /// The Darwin value that the Linux value `linux` stands for, if Darwin has one.
    pub open spec fn apple_of(linux: u32) -> Option<i32> {
        match linux {
            0 => Some(0i32),
            1 => Some(1i32),
            2 => Some(2i32),
            _ => None,
        }
    }

    /// The Linux value that the Darwin value `apple` is read as, if any.
    pub open spec fn linux_of(apple: i32) -> Option<u32> {
        match apple {
            0 => Some(0u32),
            1 => Some(1u32),
            2 => Some(2u32),
            _ => None,
        }
    }

}

impl FromApple for Whence {
    type Apple = i32;

    fn from_apple(apple: i32) -> (r: Result<Self, LxError>)
        ensures
            r == (match Self::linux_of(apple) {
                Some(x) => Ok(Whence(x)),
                None => Err(LxError(LxError::EINVAL)),
            }),
    {
        match apple {
            0 => Ok(Whence(Self::SEEK_SET)),
            1 => Ok(Whence(Self::SEEK_CUR)),
            2 => Ok(Whence(Self::SEEK_END)),
            _ => Err(LxError(LxError::EINVAL)),
        }
    }
}

impl ToApple for Whence {
    type Apple = i32;

    fn to_apple(self) -> (r: Result<i32, LxError>)
        ensures
            r == (match Self::apple_of(self.0) {
                Some(a) => Ok(a),
                None => Err(LxError(LxError::EINVAL)),
            }),
    {
        match self.0 {
            0 => Ok(0),
            1 => Ok(1),
            2 => Ok(2),
            _ => Err(LxError(LxError::EINVAL)),
        }
    }
}



/// Flags of `eventfd`.
#[derive(Debug, Clone, Copy, PartialEq, Eq, Structural)]
pub struct EventFdFlags(pub u32);

impl EventFdFlags {
    pub const EFD_SEMAPHORE: u32 = 1;
    pub const EFD_NONBLOCK: u32 = 0o4000;
    pub const EFD_CLOEXEC: u32 = 0o2000000;

    /// The open flags of the descriptor: close-on-exec and non-blocking as asked.
    pub fn open_flags(self) -> (r: OpenFlags)
        ensures
            r.0 == self.0 & (OpenFlags::O_CLOEXEC | OpenFlags::O_NONBLOCK),
    {
        OpenFlags(self.0 & (OpenFlags::O_CLOEXEC | OpenFlags::O_NONBLOCK))
    }
}

/// The descriptors of a set, in increasing order, among the first `n`.
pub open spec fn set_members(bits: Seq<bool>, n: int) -> Seq<i32>
    decreases n,
{
    if n <= 0 {
        Seq::empty()
    } else if bits[n - 1] {
        set_members(bits, n - 1).push((n - 1) as i32)
    } else {
        set_members(bits, n - 1)
    }
}

/// A set of descriptors below a bound, as `select` takes it: descriptor `fd` is in the set
/// where `bits[fd]` holds.
#[derive(Debug, Clone)]
pub struct FdSet {
    pub bits: Vec<bool>,
}

impl FdSet {
    /// The descriptors of the set, in increasing order.
    pub fn iter(&self) -> (r: Vec<i32>)
        requires
            self.bits@.len() <= i32::MAX,
        ensures
            r@ == set_members(self.bits@, self.bits@.len() as int),
    {
        let mut r: Vec<i32> = Vec::new();
        let mut i: usize = 0;
        while i < self.bits.len()
            invariant
                i <= self.bits@.len() <= i32::MAX,
                r@ == set_members(self.bits@, i as int),
            decreases self.bits@.len() - i,
        {
            if self.bits[i] {
                r.push(i as i32);
            }
            i = i + 1;
        }
        r
    }

    /// Empties the set.
    pub fn clear(&mut self)
        ensures
            final(self).bits@.len() == old(self).bits@.len(),
            forall|i: int| 0 <= i < final(self).bits@.len() ==> !final(self).bits@[i],
    {
        let mut i: usize = 0;
        while i < self.bits.len()
            invariant
                i <= self.bits@.len(),
                self.bits@.len() == old(self).bits@.len(),
                forall|j: int| 0 <= j < i ==> !self.bits@[j],
            decreases self.bits@.len() - i,
        {
            self.bits.set(i, false);
            i = i + 1;
        }
    }

    /// Adds `fd` to the set.
    pub fn insert(&mut self, fd: i32)
        requires
            0 <= fd < old(self).bits@.len(),
        ensures
            final(self).bits@ == old(self).bits@.update(fd as int, true),
    {
        self.bits.set(fd as usize, true);
    }
}

/// Each descriptor flag has Darwin bits of its own, below bit 31.
proof fn lemma_fd_table()
    ensures
        apple_disjoint(FdFlags::table()),
        forall|j: int|
            0 <= j < FdFlags::table().len() ==> #[trigger] FdFlags::table()[j].1 & 0xffff_ffff_8000_0000u64 == 0,
{
    let t = FdFlags::table();
    assert(t[0].1 == 0x1u64);
    assert(0x1u64 & 0xffffffff80000000u64 == 0) by (bit_vector);
    assert forall|i: int, j: int| 0 <= i < j < t.len() implies #[trigger] t[i].1 & #[trigger] t[j].1 == 0 by {
    }
    assert forall|j: int| 0 <= j < t.len() implies #[trigger] t[j].1 & 0xffff_ffff_8000_0000u64 == 0 by {
    }
}

/// The descriptor flags that Darwin knows come back unchanged from a trip to Darwin and back.
pub proof fn lemma_fd_flags_round_trip(flags: u32)
    ensures
        flags_from_apple(FdFlags::table(), (flags_to_apple(FdFlags::table(), flags as u64) as i32) as u64)
            == flags_known(FdFlags::table(), flags as u64),
{
    lemma_fd_table();
    lemma_flags_round_trip(FdFlags::table(), flags as u64);
    lemma_to_apple_fits_i32(FdFlags::table(), flags as u64);
}

/// Each poll event has Darwin bits of its own, below bit 15.
proof fn lemma_poll_table()
    ensures
        apple_disjoint(PollEvents::table()),
        forall|j: int|
            0 <= j < PollEvents::table().len() ==> #[trigger] PollEvents::table()[j].1 & 0xffff_ffff_ffff_8000u64 == 0,
{
    let t = PollEvents::table();
    assert(t[0].1 == 0x1u64);
    assert(t[1].1 == 0x2u64);
    assert(t[2].1 == 0x4u64);
    assert(t[3].1 == 0x8u64);
    assert(t[4].1 == 0x10u64);
    assert(t[5].1 == 0x20u64);
    assert(0x1u64 & 0x2u64 == 0 && 0x1u64 & 0x4u64 == 0 && 0x1u64 & 0x8u64 == 0 && 0x1u64 & 0x10u64 == 0 && 0x1u64 & 0x20u64 == 0 && 0x2u64 & 0x4u64 == 0 && 0x2u64 & 0x8u64 == 0 && 0x2u64 & 0x10u64 == 0 && 0x2u64 & 0x20u64 == 0 && 0x4u64 & 0x8u64 == 0 && 0x4u64 & 0x10u64 == 0 && 0x4u64 & 0x20u64 == 0 && 0x8u64 & 0x10u64 == 0 && 0x8u64 & 0x20u64 == 0 && 0x10u64 & 0x20u64 == 0 && 0x1u64 & 0xffffffffffff8000u64 == 0 && 0x2u64 & 0xffffffffffff8000u64 == 0 && 0x4u64 & 0xffffffffffff8000u64 == 0 && 0x8u64 & 0xffffffffffff8000u64 == 0 && 0x10u64 & 0xffffffffffff8000u64 == 0 && 0x20u64 & 0xffffffffffff8000u64 == 0) by (bit_vector);
    assert forall|i: int, j: int| 0 <= i < j < t.len() implies #[trigger] t[i].1 & #[trigger] t[j].1 == 0 by {
    }
    assert forall|j: int| 0 <= j < t.len() implies #[trigger] t[j].1 & 0xffff_ffff_ffff_8000u64 == 0 by {
    }
}

/// The poll events that Darwin knows come back unchanged from a trip to Darwin and back.
pub proof fn lemma_poll_events_round_trip(events: u16)
    ensures
        PollEvents::from_apple_bits(PollEvents(events).apple_bits()) == PollEvents(
            flags_known(PollEvents::table(), events as u64) as u16,
        ),
{
    lemma_poll_table();
    lemma_flags_round_trip(PollEvents::table(), events as u64);
    lemma_to_apple_fits_i16(PollEvents::table(), events as u64);
}

/// Darwin `POLLIN`.
pub const APPLE_POLLIN: u64 = 0x1;
/// Darwin `POLLPRI`.
pub const APPLE_POLLPRI: u64 = 0x2;
/// Darwin `POLLOUT`.
pub const APPLE_POLLOUT: u64 = 0x4;
/// Darwin `POLLERR`.
pub const APPLE_POLLERR: u64 = 0x8;
/// Darwin `POLLHUP`.
pub const APPLE_POLLHUP: u64 = 0x10;
/// Darwin `POLLNVAL`.
pub const APPLE_POLLNVAL: u64 = 0x20;

/// Each poll event becomes the Darwin event of the same name, and each Darwin event is read back
/// as the Linux event of its name.
pub proof fn lemma_poll_events_by_name()
    ensures
        flags_to_apple(PollEvents::table(), PollEvents::POLLIN as u64) == APPLE_POLLIN,
        flags_to_apple(PollEvents::table(), PollEvents::POLLPRI as u64) == APPLE_POLLPRI,
        flags_to_apple(PollEvents::table(), PollEvents::POLLOUT as u64) == APPLE_POLLOUT,
        flags_to_apple(PollEvents::table(), PollEvents::POLLERR as u64) == APPLE_POLLERR,
        flags_to_apple(PollEvents::table(), PollEvents::POLLHUP as u64) == APPLE_POLLHUP,
        flags_to_apple(PollEvents::table(), PollEvents::POLLNVAL as u64) == APPLE_POLLNVAL,
        flags_from_apple(PollEvents::table(), APPLE_POLLIN) == PollEvents::POLLIN as u64,
        flags_from_apple(PollEvents::table(), APPLE_POLLPRI) == PollEvents::POLLPRI as u64,
        flags_from_apple(PollEvents::table(), APPLE_POLLOUT) == PollEvents::POLLOUT as u64,
        flags_from_apple(PollEvents::table(), APPLE_POLLERR) == PollEvents::POLLERR as u64,
        flags_from_apple(PollEvents::table(), APPLE_POLLHUP) == PollEvents::POLLHUP as u64,
        flags_from_apple(PollEvents::table(), APPLE_POLLNVAL) == PollEvents::POLLNVAL as u64,
{
    let t = PollEvents::table();
    assert(t[0] == (0x1u64, 0x1u64));
    assert(t[1] == (0x2u64, 0x2u64));
    assert(t[2] == (0x4u64, 0x4u64));
    assert(t[3] == (0x8u64, 0x8u64));
    assert(t[4] == (0x10u64, 0x10u64));
    assert(t[5] == (0x20u64, 0x20u64));
    assert(0x1u64 & 0x1u64 == 0x1u64 && 0x1u64 & 0x2u64 != 0x2u64 && 0x1u64 & 0x4u64 != 0x4u64 && 0x1u64 & 0x8u64 != 0x8u64 && 0x1u64 & 0x10u64 != 0x10u64 && 0x1u64 & 0x20u64 != 0x20u64 && 0x2u64 & 0x2u64 == 0x2u64 && 0x2u64 & 0x1u64 != 0x1u64 && 0x2u64 & 0x4u64 != 0x4u64 && 0x2u64 & 0x8u64 != 0x8u64 && 0x2u64 & 0x10u64 != 0x10u64 && 0x2u64 & 0x20u64 != 0x20u64 && 0x4u64 & 0x4u64 == 0x4u64 && 0x4u64 & 0x1u64 != 0x1u64 && 0x4u64 & 0x2u64 != 0x2u64 && 0x4u64 & 0x8u64 != 0x8u64 && 0x4u64 & 0x10u64 != 0x10u64 && 0x4u64 & 0x20u64 != 0x20u64 && 0x8u64 & 0x8u64 == 0x8u64 && 0x8u64 & 0x1u64 != 0x1u64 && 0x8u64 & 0x2u64 != 0x2u64 && 0x8u64 & 0x4u64 != 0x4u64 && 0x8u64 & 0x10u64 != 0x10u64 && 0x8u64 & 0x20u64 != 0x20u64 && 0x10u64 & 0x10u64 == 0x10u64 && 0x10u64 & 0x1u64 != 0x1u64 && 0x10u64 & 0x2u64 != 0x2u64 && 0x10u64 & 0x4u64 != 0x4u64 && 0x10u64 & 0x8u64 != 0x8u64 && 0x10u64 & 0x20u64 != 0x20u64 && 0x20u64 & 0x20u64 == 0x20u64 && 0x20u64 & 0x1u64 != 0x1u64 && 0x20u64 & 0x2u64 != 0x2u64 && 0x20u64 & 0x4u64 != 0x4u64 && 0x20u64 & 0x8u64 != 0x8u64 && 0x20u64 & 0x10u64 != 0x10u64 && 0x1u64 != 0 && 0x2u64 != 0 && 0x4u64 != 0 && 0x8u64 != 0 && 0x10u64 != 0 && 0x20u64 != 0) by (bit_vector);
    lemma_poll_table();
    lemma_to_apple_entry(t, PollEvents::POLLIN as u64, 0);
    lemma_from_apple_entry(t, 0);
    lemma_to_apple_entry(t, PollEvents::POLLPRI as u64, 1);
    lemma_from_apple_entry(t, 1);
    lemma_to_apple_entry(t, PollEvents::POLLOUT as u64, 2);
    lemma_from_apple_entry(t, 2);
    lemma_to_apple_entry(t, PollEvents::POLLERR as u64, 3);
    lemma_from_apple_entry(t, 3);
    lemma_to_apple_entry(t, PollEvents::POLLHUP as u64, 4);
    lemma_from_apple_entry(t, 4);
    lemma_to_apple_entry(t, PollEvents::POLLNVAL as u64, 5);
    lemma_from_apple_entry(t, 5);
}

} // verus!
