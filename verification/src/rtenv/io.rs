//! Input and output on descriptors: the requests for virtual descriptors, the control
//! operations that go through the server, and the bookkeeping of `select`, `pipe`, `close` and
//! vectored transfers.

use vstd::prelude::*;

use crate::error::{apple_error, LxError};
use crate::fs::OpenFlags;
use crate::io::{EventFdFlags, FcntlCmd, FdFlags, FdSet, PollEvents, PollFd, Whence, set_members};
use crate::ipc::{Request, Response, VfdAvailCtrl};
use crate::rtenv::vfd::VfdTable;

verus! {

/// Copies bytes into a vector.
pub fn bytes_vec(buf: &[u8]) -> (r: Vec<u8>)
    ensures
        r@ == buf@,
{
    let mut r: Vec<u8> = Vec::new();
    let mut i: usize = 0;
    while i < buf.len()
        invariant
            i <= buf@.len(),
            r@ == buf@.take(i as int),
        decreases buf@.len() - i,
    {
        r.push(buf[i]);
        i = i + 1;
        assert(r@ =~= buf@.take(i as int));
    }
    assert(buf@.take(buf@.len() as int) =~= buf@);
    r
}

/// The request of `read` on a virtual descriptor: at most `len` bytes.
pub fn read(vfd: u64, len: usize) -> (r: Request)
    ensures
        r matches Request::VirtualFdRead(v, n) && v == vfd && n == len,
{
    Request::VirtualFdRead(vfd, len)
}

/// The request of `pread` on a virtual descriptor.
pub fn pread(vfd: u64, off: i64, len: usize) -> (r: Request)
    ensures
        r matches Request::VirtualFdPread(v, o, n) && v == vfd && o == off && n == len,
{
    Request::VirtualFdPread(vfd, off, len)
}

/// The request of `write` on a virtual descriptor.
pub fn write(vfd: u64, buf: &[u8]) -> (r: Request)
    ensures
        r matches Request::VirtualFdWrite(v, b) && v == vfd && b@ == buf@,
{
    Request::VirtualFdWrite(vfd, bytes_vec(buf))
}

/// The request of `pwrite` on a virtual descriptor.
pub fn pwrite(vfd: u64, off: i64, buf: &[u8]) -> (r: Request)
    ensures
        r matches Request::VirtualFdPwrite(v, o, b) && v == vfd && o == off && b@ == buf@,
{
    Request::VirtualFdPwrite(vfd, off, bytes_vec(buf))
}

/// The request of `lseek` on a virtual descriptor.
pub fn lseek(vfd: u64, whence: Whence, off: i64) -> (r: Request)
    ensures
        r matches Request::VirtualFdLseek(v, w, o) && v == vfd && w == whence && o == off,
{
    Request::VirtualFdLseek(vfd, whence, off)
}

/// The request that duplicates a virtual descriptor.
pub fn dup(vfd: u64) -> (r: Request)
    ensures
        r matches Request::VirtualFdDup(v) && v == vfd,
{
    Request::VirtualFdDup(vfd)
}

/// The request of `ftruncate` on a virtual descriptor.
pub fn truncate(vfd: u64, len: u64) -> (r: Request)
    ensures
        r matches Request::VirtualFdTruncate(v, n) && v == vfd && n == len,
{
    Request::VirtualFdTruncate(vfd, len)
}

/// The request that closes a virtual descriptor.
pub fn close(vfd: u64) -> (r: Request)
    ensures
        r matches Request::VirtualFdClose(v) && v == vfd,
{
    Request::VirtualFdClose(vfd)
}

/// The request that asks what an `ioctl` command on a virtual descriptor reads and writes.
pub fn ioctl(vfd: u64, cmd: u32) -> (r: Request)
    ensures
        r matches Request::VirtualFdIoctlQuery(v, c) && v == vfd && c == cmd,
{
    Request::VirtualFdIoctlQuery(vfd, cmd)
}

/// The request that switches the process to another mount name space.
pub fn set_mount_namespace(new: u64) -> (r: Request)
    ensures
        r matches Request::SetMountNamespace(n) && n == new,
{
    Request::SetMountNamespace(new)
}

/// The request of `eventfd`.
pub fn eventfd(initval: u64, flags: EventFdFlags) -> (r: Request)
    ensures
        r matches Request::EventFd(v, f) && v == initval && f == flags.0,
{
    Request::EventFd(initval, flags.0)
}

/// Whether `resp` answers a read: bytes that fit a buffer of `len`, or an error.
pub open spec fn is_read_reply(resp: Response, len: int) -> bool {
    match resp {
        Response::Bytes(b) => b@.len() <= len,
        Response::Error(_) => true,
        _ => false,
    }
}

/// Copies the bytes that a read got to the start of `buf` and answers how many there are.
pub fn reply_read(resp: Response, buf: &mut [u8]) -> (r: Result<usize, LxError>)
    requires
        is_read_reply(resp, old(buf)@.len() as int),
    ensures
        match resp {
            Response::Bytes(b) => r == Ok::<usize, LxError>(b@.len() as usize) && final(buf)@ == b@
                + old(buf)@.skip(b@.len() as int),
            Response::Error(e) => r == Err::<usize, LxError>(e) && final(buf)@ == old(buf)@,
            _ => false,
        },
{
    match resp {
        Response::Bytes(b) => {
            let ghost start = buf@;
            let mut i: usize = 0;
            while i < b.len()
                invariant
                    i <= b@.len() <= buf@.len(),
                    buf@.len() == start.len(),
                    forall|j: int| 0 <= j < i ==> buf@[j] == b@[j],
                    forall|j: int| i <= j < buf@.len() ==> buf@[j] == start[j],
                decreases b@.len() - i,
            {
                buf[i] = b[i];
                i = i + 1;
            }
            assert(buf@ =~= b@ + start.skip(b@.len() as int));
            Ok(b.len())
        },
        Response::Error(e) => Err(e),
        _ => Err(LxError(LxError::EIO)),
    }
}

/// Which control call a control request stands for.
#[derive(Debug, Clone, Copy, PartialEq, Eq, Structural)]
pub enum CtrlKind {
    Ioctl,
    Fcntl,
}

/// The input of a control operation: the `in_size` bytes at the argument's address
/// (`arg_bytes`) where it reads a buffer, nothing where it reads nothing, and the argument's
/// own 8 little-endian bytes where it reads the argument itself.
pub open spec fn ctrl_input(avail: VfdAvailCtrl, arg: usize, arg_bytes: Seq<u8>) -> Seq<u8> {
    if avail.in_size > 0 {
        arg_bytes
    } else if avail.in_size == 0 {
        Seq::empty()
    } else {
        crate::bytes::le_bytes(arg as u64, 8)
    }
}

/// The request of a control operation on a virtual descriptor.
pub fn ctrl(
    kind: CtrlKind,
    vfd: u64,
    cmd: u32,
    arg: usize,
    avail: VfdAvailCtrl,
    arg_bytes: &[u8],
) -> (r: Request)
    requires
        avail.in_size > 0 ==> arg_bytes@.len() == avail.in_size,
    ensures
        kind == CtrlKind::Ioctl ==> (r matches Request::VirtualFdIoctl(v, c, input) && v == vfd && c
            == cmd && input@ == ctrl_input(avail, arg, arg_bytes@)),
        kind == CtrlKind::Fcntl ==> (r matches Request::VirtualFdFcntl(v, c, input) && v == vfd && c
            == cmd && input@ == ctrl_input(avail, arg, arg_bytes@)),
{
    let input = if avail.in_size > 0 {
        bytes_vec(arg_bytes)
    } else if avail.in_size == 0 {
        Vec::new()
    } else {
        let mut v: Vec<u8> = Vec::new();
        crate::bytes::push_le(&mut v, arg as u64, 8);
        assert(v@ =~= crate::bytes::le_bytes(arg as u64, 8));
        v
    };
    match kind {
        CtrlKind::Ioctl => Request::VirtualFdIoctl(vfd, cmd, input),
        CtrlKind::Fcntl => Request::VirtualFdFcntl(vfd, cmd, input),
    }
}

/// Whether `resp` answers a control operation.
pub open spec fn is_ctrl_reply(resp: Response) -> bool {
    resp is Nothing || resp is CtrlOutput || resp is Error
}

/// The status of a control operation and the bytes to write back at the argument's address.
pub fn reply_ctrl(resp: Response) -> (r: Result<(i32, Vec<u8>), LxError>)
    requires
        is_ctrl_reply(resp),
    ensures
        match resp {
            Response::Nothing => r matches Ok((s, b)) && s == 0 && b@.len() == 0,
            Response::CtrlOutput(out) => r matches Ok((s, b)) && s == out.status && b@ == out.blob@,
            Response::Error(e) => r == Err::<(i32, Vec<u8>), LxError>(e),
            _ => false,
        },
{
    match resp {
        Response::Nothing => Ok((0, Vec::new())),
        Response::CtrlOutput(out) => Ok((out.status, out.blob)),
        Response::Error(e) => Err(e),
        _ => Err(LxError(LxError::EIO)),
    }
}

/// How `fcntl` on a virtual descriptor proceeds.
#[derive(Debug, Clone, Copy, PartialEq, Eq, Structural)]
pub enum VfdFcntl {
    /// Duplicate the descriptor and the virtual one.
    Dup,
    /// Duplicate both, and make the new virtual one close on exec.
    DupCloexec,
    /// Hand the command to the server.
    Forward,
}

/// How `fcntl` with `cmd` on a virtual descriptor proceeds.
pub fn fcntl(cmd: FcntlCmd) -> (r: VfdFcntl)
    ensures
        r == if cmd.0 == FcntlCmd::F_DUPFD {
            VfdFcntl::Dup
        } else if cmd.0 == FcntlCmd::F_DUPFD_CLOEXEC {
            VfdFcntl::DupCloexec
        } else {
            VfdFcntl::Forward
        },
{
    if cmd.0 == FcntlCmd::F_DUPFD {
        VfdFcntl::Dup
    } else if cmd.0 == FcntlCmd::F_DUPFD_CLOEXEC {
        VfdFcntl::DupCloexec
    } else {
        VfdFcntl::Forward
    }
}

/// The argument of the `F_SETFD` that makes a duplicate close on exec: its flags with
/// `FD_CLOEXEC`.
pub fn cloexec_arg(orig_flags: i32) -> (r: usize)
    ensures
        r == (orig_flags as u32 | FdFlags::FD_CLOEXEC) as usize,
{
    (orig_flags as u32 | FdFlags::FD_CLOEXEC) as usize
}

/// `dup2` onto itself answers the descriptor without doing anything.
pub fn dup2(old: i32, new: i32) -> (r: Option<i32>)
    ensures
        r == if old == new {
            Some(new)
        } else {
            None::<i32>
        },
{
    if old == new {
        Some(new)
    } else {
        None
    }
}

/// Closes `fd` in the table: a descriptor that the runtime needs is `EPERM`; otherwise the
/// virtual descriptor it stood for, if any, leaves the table and is answered.
pub fn close_fd(table: &mut VfdTable, important: bool, fd: i32) -> (r: Result<Option<u64>, LxError>)
    ensures
        important ==> r == Err::<Option<u64>, LxError>(LxError(LxError::EPERM)) && final(table)@
            == old(table)@ && final(table).entries@ == old(table).entries@,
        !important ==> r == Ok::<Option<u64>, LxError>(old(table)@.get(fd)) && final(table)@
            == old(table)@.remove(fd),
{
    if important {
        return Err(LxError(LxError::EPERM));
    }
    Ok(table.take(fd))
}

/// The count of buffers that a native vectored call can take: `EINVAL` beyond `i32::MAX`.
pub fn iov_count(len: usize) -> (r: Result<i32, LxError>)
    ensures
        len <= i32::MAX ==> r == Ok::<i32, LxError>(len as i32),
        len > i32::MAX ==> r == Err::<i32, LxError>(LxError(LxError::EINVAL)),
{
    if len > 0x7fff_ffff {
        Err(LxError(LxError::EINVAL))
    } else {
        Ok(len as i32)
    }
}

/// The progress of a vectored transfer on a virtual descriptor, one buffer at a time.
#[derive(Debug, Clone, Copy, PartialEq, Eq, Structural)]
pub struct VecTransfer {
    pub count: usize,
}

impl VecTransfer {
    /// Nothing moved yet.
    pub fn new() -> (r: Self)
        ensures
            r.count == 0,
    {
        VecTransfer { count: 0 }
    }

    /// Whether `writev` passes over a buffer: a null or an empty one.
    pub fn skips(base: usize, len: usize) -> (r: bool)
        ensures
            r == (base == 0 || len == 0),
    {
        base == 0 || len == 0
    }

    /// Counts `n` bytes moved for a buffer of `len`; the transfer goes on only where the buffer
    /// was filled.
    pub fn step(&mut self, n: usize, len: usize) -> (r: bool)
        requires
            old(self).count + n <= usize::MAX,
        ensures
            final(self).count == old(self).count + n,
            r == (n == len),
    {
        self.count = self.count + n;
        n == len
    }
}

/// What setting up one end of a pipe asks: which descriptor, and which flag word gets which
/// bit.
#[derive(Debug, Clone, Copy, PartialEq, Eq, Structural)]
pub enum PipeJob {
    /// Read the descriptor flags and set them with close-on-exec.
    Cloexec(i32),
    /// Read the status flags and set them with non-blocking.
    Nonblock(i32),
}

/// The setup steps of a new pipe `fds`, in order: for each end, close-on-exec and then
/// non-blocking where the flags ask for them.
pub open spec fn pipe_jobs(flags: OpenFlags, fds: (i32, i32)) -> Seq<PipeJob> {
    let cloexec = flags.0 & OpenFlags::O_CLOEXEC == OpenFlags::O_CLOEXEC;
    let nonblock = flags.0 & OpenFlags::O_NONBLOCK == OpenFlags::O_NONBLOCK;
    let one = |fd: i32|
        if cloexec && nonblock {
            seq![PipeJob::Cloexec(fd), PipeJob::Nonblock(fd)]
        } else if cloexec {
            seq![PipeJob::Cloexec(fd)]
        } else if nonblock {
            seq![PipeJob::Nonblock(fd)]
        } else {
            Seq::empty()
        };
    one(fds.0) + one(fds.1)
}

fn pipe_end_jobs(out: &mut Vec<PipeJob>, fd: i32, cloexec: bool, nonblock: bool)
    ensures
        final(out)@ == old(out)@ + (if cloexec && nonblock {
            seq![PipeJob::Cloexec(fd), PipeJob::Nonblock(fd)]
        } else if cloexec {
            seq![PipeJob::Cloexec(fd)]
        } else if nonblock {
            seq![PipeJob::Nonblock(fd)]
        } else {
            Seq::empty()
        }),
{
    let ghost start = out@;
    if cloexec {
        out.push(PipeJob::Cloexec(fd));
    }
    if nonblock {
        out.push(PipeJob::Nonblock(fd));
    }
    assert(out@ =~= start + (if cloexec && nonblock {
        seq![PipeJob::Cloexec(fd), PipeJob::Nonblock(fd)]
    } else if cloexec {
        seq![PipeJob::Cloexec(fd)]
    } else if nonblock {
        seq![PipeJob::Nonblock(fd)]
    } else {
        Seq::empty()
    }));
}

/// The setup steps of a new pipe. Direct (packet) pipes are not offered.
pub fn pipe(flags: OpenFlags, fds: (i32, i32)) -> (r: Vec<PipeJob>)
    requires
        flags.0 & OpenFlags::O_DIRECT != OpenFlags::O_DIRECT,
    ensures
        r@ == pipe_jobs(flags, fds),
{
    let cloexec = flags.0 & OpenFlags::O_CLOEXEC == OpenFlags::O_CLOEXEC;
    let nonblock = flags.0 & OpenFlags::O_NONBLOCK == OpenFlags::O_NONBLOCK;
    let mut r: Vec<PipeJob> = Vec::new();
    pipe_end_jobs(&mut r, fds.0, cloexec, nonblock);
    pipe_end_jobs(&mut r, fds.1, cloexec, nonblock);
    assert(r@ =~= pipe_jobs(flags, fds));
    r
}

/// The flag word that a pipe setup step writes: the word it read with its bit (Darwin
/// `FD_CLOEXEC` or `O_NONBLOCK`) added.
pub fn pipe_job_value(job: PipeJob, orig: i32) -> (r: i32)
    ensures
        r == match job {
            PipeJob::Cloexec(_) => orig | 1i32,
            PipeJob::Nonblock(_) => orig | 4i32,
        },
{
    match job {
        PipeJob::Cloexec(_) => orig | 1,
        PipeJob::Nonblock(_) => orig | 4,
    }
}

/// The Darwin `fcntl` command that reads the word a pipe setup step changes (`F_GETFD` for the
/// descriptor flags, `F_GETFL` for the status flags) and the one that writes it back (`F_SETFD`,
/// `F_SETFL`).
pub fn pipe_job_cmds(job: PipeJob) -> (r: (i32, i32))
    ensures
        r == match job {
            PipeJob::Cloexec(_) => (1i32, 2i32),
            PipeJob::Nonblock(_) => (3i32, 4i32),
        },
{
    match job {
        PipeJob::Cloexec(_) => (1, 2),
        PipeJob::Nonblock(_) => (3, 4),
    }
}

/// The word a pipe setup step writes, after the read of the old word returned `ret`: the failure
/// that `errno` describes where the read returned `-1`, otherwise the old word with the step's
/// bit added.
pub fn pipe_job_read(job: PipeJob, ret: i32, errno: i32) -> (r: Result<i32, LxError>)
    ensures
        r == if ret == -1 {
            Err(apple_error(errno))
        } else {
            Ok::<i32, LxError>(
                match job {
                    PipeJob::Cloexec(_) => ret | 1i32,
                    PipeJob::Nonblock(_) => ret | 4i32,
                },
            )
        },
{
    if ret == -1 {
        Err(LxError::from_apple_or_eio(errno))
    } else {
        Ok(pipe_job_value(job, ret))
    }
}

/// How a `pipe` call ends.
#[derive(Debug, Clone, Copy, PartialEq, Eq, Structural)]
pub enum PipeOutcome {
    /// Both ends (read end, write end) are set up; they are the call's result.
    Ready(i32, i32),
    /// A setup step failed: both ends are to be closed and the step's error is the call's.
    Failed { close_read: i32, close_write: i32, error: LxError },
}

/// The end of a `pipe` call whose ends are `fds`, after its setup steps: ready where no step
/// failed, otherwise both ends closed and the first failure returned.
pub fn pipe_outcome(fds: (i32, i32), failure: Option<LxError>) -> (r: PipeOutcome)
    ensures
        r == match failure {
            None => PipeOutcome::Ready(fds.0, fds.1),
            Some(e) => PipeOutcome::Failed { close_read: fds.0, close_write: fds.1, error: e },
        },
{
    match failure {
        None => PipeOutcome::Ready(fds.0, fds.1),
        Some(e) => PipeOutcome::Failed { close_read: fds.0, close_write: fds.1, error: e },
    }
}

/// Which of the three sets of a `select` call a polled entry reports for.
pub open spec fn select_polls(set: Option<Seq<bool>>, events: u16) -> Seq<PollFd> {
    match set {
        None => Seq::empty(),
        Some(b) => set_members(b, b.len() as int).map_values(
            |fd: i32| PollFd { fd, events: PollEvents(events), revents: PollEvents(0) },
        ),
    }
}

/// The set of the three that each polled entry stands for, with its descriptor.
pub open spec fn select_kinds(set: Option<Seq<bool>>, kind: u8) -> Seq<(u8, i32)> {
    match set {
        None => Seq::empty(),
        Some(b) => set_members(b, b.len() as int).map_values(|fd: i32| (kind, fd)),
    }
}

/// The bits of an optional set.
pub open spec fn opt_bits(set: Option<FdSet>) -> Option<Seq<bool>> {
    match set {
        None => None,
        Some(s) => Some(s.bits@),
    }
}

/// The entries that `select` polls, and for each the set and descriptor it stands for.
#[derive(Debug, Clone)]
pub struct SelectPlan {
    pub poll_fds: Vec<PollFd>,
    pub mapping: Vec<(u8, i32)>,
}

/// The events that `select` waits for in each set: readable; writable; priority data or an
/// error.
pub open spec fn select_events(kind: u8) -> u16 {
    if kind == 0 {
        PollEvents::POLLIN
    } else if kind == 1 {
        PollEvents::POLLOUT
    } else {
        (PollEvents::POLLPRI | PollEvents::POLLERR) as u16
    }
}

fn select_add(plan: &mut SelectPlan, set: &Option<FdSet>, kind: u8)
    requires
        kind <= 2,
        set matches Some(s) ==> s.bits@.len() <= i32::MAX,
    ensures
        final(plan).poll_fds@ == old(plan).poll_fds@ + select_polls(opt_bits(*set), select_events(kind)),
        final(plan).mapping@ == old(plan).mapping@ + select_kinds(opt_bits(*set), kind),
{
    let events: u16 = if kind == 0 {
        PollEvents::POLLIN
    } else if kind == 1 {
        PollEvents::POLLOUT
    } else {
        PollEvents::POLLPRI | PollEvents::POLLERR
    };
    match set {
        None => {
            assert(plan.poll_fds@ =~= old(plan).poll_fds@ + select_polls(None, events));
            assert(plan.mapping@ =~= old(plan).mapping@ + select_kinds(None, kind));
        },
        Some(s) => {
            let fds = s.iter();
            let ghost p0 = plan.poll_fds@;
            let ghost m0 = plan.mapping@;
            let mut i: usize = 0;
            while i < fds.len()
                invariant
                    i <= fds@.len(),
                    plan.poll_fds@ == p0 + fds@.take(i as int).map_values(
                        |fd: i32| PollFd { fd, events: PollEvents(events), revents: PollEvents(0) },
                    ),
                    plan.mapping@ == m0 + fds@.take(i as int).map_values(|fd: i32| (kind, fd)),
                decreases fds@.len() - i,
            {
                let fd = fds[i];
                plan.poll_fds.push(PollFd { fd, events: PollEvents(events), revents: PollEvents(0) });
                plan.mapping.push((kind, fd));
                i = i + 1;
                assert(plan.poll_fds@ =~= p0 + fds@.take(i as int).map_values(
                    |fd: i32| PollFd { fd, events: PollEvents(events), revents: PollEvents(0) },
                ));
                assert(plan.mapping@ =~= m0 + fds@.take(i as int).map_values(|fd: i32| (kind, fd)));
            }
            assert(fds@.take(fds@.len() as int) =~= fds@);
        },
    }
}

/// The entries that `select` polls: those of the read set, then the write set, then the
/// exception set, each in increasing order.
pub fn select_plan(read: &Option<FdSet>, write: &Option<FdSet>, except: &Option<FdSet>) -> (r:
    SelectPlan)
    requires
        read matches Some(s) ==> s.bits@.len() <= i32::MAX,
        write matches Some(s) ==> s.bits@.len() <= i32::MAX,
        except matches Some(s) ==> s.bits@.len() <= i32::MAX,
    ensures
        r.poll_fds@ == select_polls(opt_bits(*read), PollEvents::POLLIN) + select_polls(
            opt_bits(*write),
            PollEvents::POLLOUT,
        ) + select_polls(opt_bits(*except), (PollEvents::POLLPRI | PollEvents::POLLERR) as u16),
        r.mapping@ == select_kinds(opt_bits(*read), 0) + select_kinds(opt_bits(*write), 1)
            + select_kinds(opt_bits(*except), 2),
{
    let mut plan = SelectPlan { poll_fds: Vec::new(), mapping: Vec::new() };
    select_add(&mut plan, read, 0);
    select_add(&mut plan, write, 1);
    select_add(&mut plan, except, 2);
    assert(plan.poll_fds@ =~= select_polls(opt_bits(*read), PollEvents::POLLIN) + select_polls(
        opt_bits(*write),
        PollEvents::POLLOUT,
    ) + select_polls(opt_bits(*except), (PollEvents::POLLPRI | PollEvents::POLLERR) as u16));
    assert(plan.mapping@ =~= select_kinds(opt_bits(*read), 0) + select_kinds(opt_bits(*write), 1)
        + select_kinds(opt_bits(*except), 2));
    plan
}

/// Whether descriptor `fd` of set `kind` was reported ready by one of the first `n` polled
/// entries.
pub open spec fn ready_upto(
    mapping: Seq<(u8, i32)>,
    polled: Seq<PollFd>,
    kind: u8,
    fd: i32,
    n: int,
) -> bool {
    exists|j: int|
        0 <= j < n && mapping[j] == (kind, fd) && (#[trigger] polled[j]).revents.0 != 0
}

/// Whether the bits `bits` hold exactly the descriptors of set `kind` that one of the first
/// `n` polled entries reported ready.
pub open spec fn holds_ready(
    bits: Seq<bool>,
    mapping: Seq<(u8, i32)>,
    polled: Seq<PollFd>,
    kind: u8,
    n: int,
) -> bool {
    forall|fd: i32|
        0 <= fd < bits.len() ==> (#[trigger] bits[fd as int] <==> ready_upto(
            mapping,
            polled,
            kind,
            fd,
            n,
        ))
}

/// The set `kind` after `select`: of its former size, with exactly the descriptors reported
/// ready.
pub open spec fn select_result(
    old_set: Option<FdSet>,
    new_set: Option<FdSet>,
    mapping: Seq<(u8, i32)>,
    polled: Seq<PollFd>,
    kind: u8,
) -> bool {
    match old_set {
        None => new_set is None,
        Some(o) => (new_set matches Some(n) && n.bits@.len() == o.bits@.len() && holds_ready(
            n.bits@,
            mapping,
            polled,
            kind,
            polled.len() as int,
        )),
    }
}

proof fn lemma_ready_step(
    old_bits: Seq<bool>,
    new_bits: Seq<bool>,
    mapping: Seq<(u8, i32)>,
    polled: Seq<PollFd>,
    kind: u8,
    n: int,
)
    requires
        0 <= n < mapping.len() == polled.len(),
        mapping[n].0 == kind ==> 0 <= mapping[n].1 < old_bits.len(),
        holds_ready(old_bits, mapping, polled, kind, n),
        new_bits == (if mapping[n].0 == kind && polled[n].revents.0 != 0 {
            old_bits.update(mapping[n].1 as int, true)
        } else {
            old_bits
        }),
    ensures
        holds_ready(new_bits, mapping, polled, kind, n + 1),
{
    assert(new_bits.len() == old_bits.len());
    assert forall|fd: i32| 0 <= fd < new_bits.len() implies (#[trigger] new_bits[fd as int]
        <==> ready_upto(mapping, polled, kind, fd, n + 1)) by {
        assert(old_bits[fd as int] <==> ready_upto(mapping, polled, kind, fd, n));
        if ready_upto(mapping, polled, kind, fd, n + 1) {
            let j = choose|j: int|
                0 <= j < n + 1 && mapping[j] == (kind, fd) && (#[trigger] polled[j]).revents.0 != 0;
            if j < n {
                assert(ready_upto(mapping, polled, kind, fd, n));
            }
        }
        if ready_upto(mapping, polled, kind, fd, n) {
            let j = choose|j: int|
                0 <= j < n && mapping[j] == (kind, fd) && (#[trigger] polled[j]).revents.0 != 0;
            assert(0 <= j < n + 1 && mapping[j] == (kind, fd) && polled[j].revents.0 != 0);
        }
        if mapping[n].0 == kind && polled[n].revents.0 != 0 && mapping[n].1 == fd {
            assert(0 <= n < n + 1 && mapping[n] == (kind, fd) && polled[n].revents.0 != 0);
        }
    }
}

/// Whether every entry of `mapping` names a descriptor inside the set it stands for.
pub open spec fn mapping_fits(
    mapping: Seq<(u8, i32)>,
    read: Option<FdSet>,
    write: Option<FdSet>,
    except: Option<FdSet>,
) -> bool {
    forall|n: int|
        0 <= n < mapping.len() ==> {
            let (k, fd) = #[trigger] mapping[n];
            &&& 0 <= fd
            &&& k <= 2
            &&& (k == 0 ==> (read matches Some(s) && fd < s.bits@.len()))
            &&& (k == 1 ==> (write matches Some(s) && fd < s.bits@.len()))
            &&& (k == 2 ==> (except matches Some(s) && fd < s.bits@.len()))
        }
}

proof fn lemma_set_members_below(bits: Seq<bool>, n: int)
    requires
        0 <= n <= bits.len() <= i32::MAX,
    ensures
        forall|j: int| 0 <= j < set_members(bits, n).len() ==> 0 <= #[trigger] set_members(bits, n)[j] < n,
    decreases n,
{
    if n > 0 {
        lemma_set_members_below(bits, n - 1);
        let prev = set_members(bits, n - 1);
        if bits[n - 1] {
            assert forall|j: int| 0 <= j < set_members(bits, n).len() implies 0
                <= #[trigger] set_members(bits, n)[j] < n by {
                if j < prev.len() {
                    assert(set_members(bits, n)[j] == prev[j]);
                }
            }
        }
    }
}

proof fn lemma_kinds_fit(set: Option<FdSet>, kind: u8)
    requires
        kind <= 2,
        set matches Some(s) ==> s.bits@.len() <= i32::MAX,
    ensures
        forall|n: int|
            0 <= n < select_kinds(opt_bits(set), kind).len() ==> {
                let (k, fd) = #[trigger] select_kinds(opt_bits(set), kind)[n];
                &&& k == kind
                &&& set matches Some(s)
                &&& 0 <= fd < s.bits@.len()
            },
{
    if let Some(s) = set {
        lemma_set_members_below(s.bits@, s.bits@.len() as int);
    }
}

/// The mapping that `select_plan` makes fits the sets it was made from, as `select_finish`
/// requires.
pub proof fn lemma_select_plan_fits(read: Option<FdSet>, write: Option<FdSet>, except: Option<FdSet>)
    requires
        read matches Some(s) ==> s.bits@.len() <= i32::MAX,
        write matches Some(s) ==> s.bits@.len() <= i32::MAX,
        except matches Some(s) ==> s.bits@.len() <= i32::MAX,
    ensures
        mapping_fits(
            select_kinds(opt_bits(read), 0) + select_kinds(opt_bits(write), 1) + select_kinds(
                opt_bits(except),
                2,
            ),
            read,
            write,
            except,
        ),
{
    let a = select_kinds(opt_bits(read), 0);
    let b = select_kinds(opt_bits(write), 1);
    let c = select_kinds(opt_bits(except), 2);
    lemma_kinds_fit(read, 0);
    lemma_kinds_fit(write, 1);
    lemma_kinds_fit(except, 2);
    let m = a + b + c;
    assert forall|n: int| 0 <= n < m.len() implies {
        let (k, fd) = #[trigger] m[n];
        &&& 0 <= fd
        &&& k <= 2
        &&& (k == 0 ==> (read matches Some(s) && fd < s.bits@.len()))
        &&& (k == 1 ==> (write matches Some(s) && fd < s.bits@.len()))
        &&& (k == 2 ==> (except matches Some(s) && fd < s.bits@.len()))
    } by {
        if n < a.len() {
            assert(m[n] == a[n]);
        } else if n < a.len() + b.len() {
            assert(m[n] == b[n - a.len()]);
        } else {
            assert(m[n] == c[n - a.len() - b.len()]);
        }
    }
}

fn clear_opt(set: &mut Option<FdSet>)
    ensures
        match *old(set) {
            None => *final(set) is None,
            Some(o) => (*final(set) matches Some(n) && n.bits@.len() == o.bits@.len() && forall|i: int|
                0 <= i < n.bits@.len() ==> !n.bits@[i]),
        },
{
    match set {
        Some(s) => s.clear(),
        None => {},
    }
}

/// Rewrites the three sets of a `select` call after the poll: each keeps its size and holds
/// exactly the descriptors that an entry reported ready.
pub fn select_finish(
    mapping: &Vec<(u8, i32)>,
    polled: &[PollFd],
    read: &mut Option<FdSet>,
    write: &mut Option<FdSet>,
    except: &mut Option<FdSet>,
)
    requires
        polled@.len() == mapping@.len(),
        mapping_fits(mapping@, *old(read), *old(write), *old(except)),
    ensures
        select_result(*old(read), *final(read), mapping@, polled@, 0),
        select_result(*old(write), *final(write), mapping@, polled@, 1),
        select_result(*old(except), *final(except), mapping@, polled@, 2),
{
    clear_opt(read);
    clear_opt(write);
    clear_opt(except);
    let mut n: usize = 0;
    while n < polled.len()
        invariant
            n <= polled@.len() == mapping@.len(),
            mapping_fits(mapping@, *old(read), *old(write), *old(except)),
            *old(read) is Some <==> *read is Some,
            *old(write) is Some <==> *write is Some,
            *old(except) is Some <==> *except is Some,
            *read matches Some(s) ==> (*old(read) matches Some(o) && s.bits@.len() == o.bits@.len()
                && holds_ready(s.bits@, mapping@, polled@, 0, n as int)),
            *write matches Some(s) ==> (*old(write) matches Some(o) && s.bits@.len() == o.bits@.len()
                && holds_ready(s.bits@, mapping@, polled@, 1, n as int)),
            *except matches Some(s) ==> (*old(except) matches Some(o) && s.bits@.len()
                == o.bits@.len() && holds_ready(s.bits@, mapping@, polled@, 2, n as int)),
        decreases polled@.len() - n,
    {
        let (k, fd) = mapping[n];
        assert(mapping@[n as int] == (k, fd));
        let ready = polled[n].revents.0 != 0;
        match read {
            Some(s) => {
                let ghost before = s.bits@;
                if ready && k == 0 {
                    s.insert(fd);
                }
                proof {
                    lemma_ready_step(before, s.bits@, mapping@, polled@, 0, n as int);
                }
            },
            None => {},
        }
        match write {
            Some(s) => {
                let ghost before = s.bits@;
                if ready && k == 1 {
                    s.insert(fd);
                }
                proof {
                    lemma_ready_step(before, s.bits@, mapping@, polled@, 1, n as int);
                }
            },
            None => {},
        }
        match except {
            Some(s) => {
                let ghost before = s.bits@;
                if ready && k == 2 {
                    s.insert(fd);
                }
                proof {
                    lemma_ready_step(before, s.bits@, mapping@, polled@, 2, n as int);
                }
            },
            None => {},
        }
        n = n + 1;
    }
}

/// Whether a set, where it is given, holds no descriptor.
pub open spec fn set_empty(set: Option<FdSet>) -> bool {
    match set {
        None => true,
        Some(s) => forall|i: int| 0 <= i < s.bits@.len() ==> !s.bits@[i],
    }
}

proof fn lemma_nothing_ready(old_set: Option<FdSet>, new_set: Option<FdSet>, mapping: Seq<(u8, i32)>, polled: Seq<PollFd>, kind: u8)
    requires
        select_result(old_set, new_set, mapping, polled, kind),
        old_set matches Some(o) ==> o.bits@.len() <= i32::MAX,
        forall|j: int| 0 <= j < polled.len() ==> (#[trigger] polled[j]).revents.0 == 0,
    ensures
        set_empty(new_set),
{
    if let Some(n) = new_set {
        assert forall|i: int| 0 <= i < n.bits@.len() implies !n.bits@[i] by {
            let fd = i as i32;
            assert(fd as int == i);
            if n.bits@[fd as int] {
                assert(ready_upto(mapping, polled, kind, fd, polled.len() as int));
                let j = choose|j: int|
                    0 <= j < polled.len() && mapping[j] == (kind, fd) && (#[trigger] polled[j]).revents.0 != 0;
                assert(polled[j].revents.0 == 0);
            }
        }
    }
}

/// Completes a `select` call whatever its poll gave (`outcome`): the three sets are rewritten
/// from the polled entries and the poll's outcome is the call's. Entries that report nothing, as
/// after a failed poll, leave every set empty.
pub fn select_complete(
    outcome: Result<u32, LxError>,
    mapping: &Vec<(u8, i32)>,
    polled: &[PollFd],
    read: &mut Option<FdSet>,
    write: &mut Option<FdSet>,
    except: &mut Option<FdSet>,
) -> (r: Result<u32, LxError>)
    requires
        polled@.len() == mapping@.len(),
        mapping_fits(mapping@, *old(read), *old(write), *old(except)),
        *old(read) matches Some(s) ==> s.bits@.len() <= i32::MAX,
        *old(write) matches Some(s) ==> s.bits@.len() <= i32::MAX,
        *old(except) matches Some(s) ==> s.bits@.len() <= i32::MAX,
    ensures
        r == outcome,
        select_result(*old(read), *final(read), mapping@, polled@, 0),
        select_result(*old(write), *final(write), mapping@, polled@, 1),
        select_result(*old(except), *final(except), mapping@, polled@, 2),
        (forall|j: int| 0 <= j < polled@.len() ==> (#[trigger] polled@[j]).revents.0 == 0) ==> (
        set_empty(*final(read)) && set_empty(*final(write)) && set_empty(*final(except))),
{
    select_finish(mapping, polled, read, write, except);
    proof {
        if forall|j: int| 0 <= j < polled@.len() ==> (#[trigger] polled@[j]).revents.0 == 0 {
            lemma_nothing_ready(*old(read), *read, mapping@, polled@, 0);
            lemma_nothing_ready(*old(write), *write, mapping@, polled@, 1);
            lemma_nothing_ready(*old(except), *except, mapping@, polled@, 2);
        }
    }
    outcome
}

} // verus!
