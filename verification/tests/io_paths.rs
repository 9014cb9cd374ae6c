use mactux::error::{posix_count, posix_status, LxError};
use mactux::io::{
    fcntl_get_lock_reply, fcntl_lock_request, native_fcntl_finish, native_ioctl_finish,
    poll_finish, tcsetattr_args, DarwinFlock, FcntlResult, Flock, NativeFcntl, PollEvents, PollFd,
    PollPlan, PollReply, TermiosArg, APPLE_F_GETLK, APPLE_F_SETLKW,
};
use mactux::io::FdSet;
use mactux::ipc::{encode_frame, take_frame};
use mactux::rtenv::io::{
    pipe_job_cmds, pipe_job_read, pipe_outcome, select_complete, select_plan, PipeJob, PipeOutcome,
};
use mactux::signal::{KernelSigSet, SigNum};
use mactux::rtenv::ipc_client::ClientConfig;
use mactux::terminal::{
    ControlCharacter, ControlCharacters, ControlFlags, InputFlags, LocalFlags, OutputFlags,
    Termios, Termios2,
};
use mactux::ToApple;

fn entry(fd: i32, events: u16) -> PollFd {
    PollFd { fd, events: PollEvents(events), revents: PollEvents(0) }
}

#[test]
fn darwin_outcomes() {
    assert_eq!(posix_count(5, 0), Ok(5));
    assert_eq!(posix_count(-1, 9), Err(LxError(LxError::EBADF)));
    assert_eq!(posix_status(0, 0), Ok(()));
    assert_eq!(posix_status(-1, 1000), Err(LxError(LxError::EIO)));
    assert_eq!(native_ioctl_finish(7, 0), Ok(0));
    assert_eq!(native_ioctl_finish(-1, 25), Err(LxError(LxError::ENOTTY)));
}

#[test]
fn poll_events_go_to_their_entries() {
    // fd 3 native, fd 10 virtual (vfd 77), fd 4 native.
    let fds = vec![entry(3, 1), entry(10, 1), entry(4, 4)];
    let vfds = vec![None, Some(77u64), None];
    let plan = PollPlan::new(&fds, &vfds);
    let mut out = fds.clone();
    // Darwin reports for fd 3, fd 4, then the server connection.
    let r = poll_finish(&mut out, &vfds, &plan, &[1, 4, 1], Some(PollReply::Ready(77, 1)), 3, 0);
    assert_eq!(r, Ok(3));
    assert_eq!(out[0].revents, PollEvents(1));
    assert_eq!(out[1].revents, PollEvents(1));
    assert_eq!(out[2].revents, PollEvents(4));

    let mut out = fds.clone();
    let r = poll_finish(&mut out, &vfds, &plan, &[], None, -1, 4);
    assert_eq!(r, Err(LxError(LxError::EINTR)));
    assert_eq!(out, fds);

    let mut out = fds.clone();
    let r = poll_finish(&mut out, &vfds, &plan, &[1, 4], Some(PollReply::Failed(LxError(LxError::EIO))), 1, 0);
    assert_eq!(r, Err(LxError(LxError::EIO)));
    assert_eq!(out, fds);
}

#[test]
fn termios_handed_to_tcsetattr() {
    let cc = ControlCharacters([ControlCharacter(0); 19]);
    let t = Termios {
        c_iflag: InputFlags(InputFlags::IXON),
        c_oflag: OutputFlags(0),
        c_cflag: ControlFlags(0),
        c_lflag: LocalFlags(LocalFlags::ICANON),
        c_line: 0,
        c_cc: cc,
    };
    let (when, a) = tcsetattr_args(1, TermiosArg::Plain(t));
    assert_eq!(when, 1);
    assert_eq!(a.c_iflag, 0x200);
    assert_eq!(a.c_lflag, 0x100);
    assert_eq!(a.c_ispeed, 0);
    let t2 = Termios2 {
        c_iflag: InputFlags(0),
        c_oflag: OutputFlags(0),
        c_cflag: ControlFlags(0),
        c_lflag: LocalFlags(0),
        c_line: 0,
        c_cc: cc,
        c_ispeed: 9600,
        c_ospeed: 38400,
    };
    let (_, a) = tcsetattr_args(0, TermiosArg::Extended(t2));
    assert_eq!((a.c_ispeed, a.c_ospeed), (9600, 38400));
}

#[test]
fn lock_records() {
    let lock = Flock { l_type: Flock::F_WRLCK, l_whence: 0, l_start: 10, l_len: 20, l_pid: 0 };
    let apple = lock.to_apple().unwrap();
    assert_eq!(apple, DarwinFlock { l_start: 10, l_len: 20, l_pid: 0, l_type: 3, l_whence: 0 });
    assert_eq!(fcntl_lock_request(NativeFcntl::GetLock, lock), Some(Ok((APPLE_F_GETLK, apple))));
    assert_eq!(
        fcntl_lock_request(NativeFcntl::SetLock { wait: true }, lock),
        Some(Ok((APPLE_F_SETLKW, apple)))
    );
    let bad = Flock { l_type: 9, ..lock };
    assert_eq!(
        fcntl_lock_request(NativeFcntl::GetLock, bad),
        Some(Err(LxError(LxError::EINVAL)))
    );
    let reported = DarwinFlock { l_start: 0, l_len: 0, l_pid: 42, l_type: 1, l_whence: 0 };
    assert_eq!(
        fcntl_get_lock_reply(0, 0, reported),
        Ok((0, Flock { l_type: Flock::F_RDLCK, l_whence: 0, l_start: 0, l_len: 0, l_pid: 42 }))
    );
    assert_eq!(fcntl_get_lock_reply(-1, 9, reported), Err(LxError(LxError::EBADF)));
    assert_eq!(native_fcntl_finish(FcntlResult::FdFlags, 1, 0), Ok(1));
    assert_eq!(native_fcntl_finish(FcntlResult::Raw, -1, 9), Err(LxError(LxError::EBADF)));
}

#[test]
fn pipe_steps_and_cleanup() {
    assert_eq!(pipe_job_cmds(PipeJob::Cloexec(3)), (1, 2));
    assert_eq!(pipe_job_cmds(PipeJob::Nonblock(3)), (3, 4));
    assert_eq!(pipe_job_read(PipeJob::Nonblock(3), 2, 0), Ok(6));
    assert_eq!(pipe_job_read(PipeJob::Cloexec(3), -1, 9), Err(LxError(LxError::EBADF)));
    assert_eq!(pipe_outcome((3, 4), None), PipeOutcome::Ready(3, 4));
    assert_eq!(
        pipe_outcome((3, 4), Some(LxError(LxError::EBADF))),
        PipeOutcome::Failed { close_read: 3, close_write: 4, error: LxError(LxError::EBADF) }
    );
}

#[test]
fn server_path_is_set_once() {
    let mut c = ClientConfig::new();
    assert!(!c.is_set());
    c.set_server_sock_path(b"/tmp/mactux.sock".to_vec());
    assert!(c.is_set());
    assert_eq!(c.server_sock_path, Some(b"/tmp/mactux.sock".to_vec()));
}

#[test]
fn select_sets_after_success_and_failure() {
    let mut read = Some(FdSet { bits: vec![false, true, false, true] });
    let mut write = None;
    let mut except = Some(FdSet { bits: vec![true] });
    let plan = select_plan(&read, &write, &except);
    let mut polled = plan.poll_fds.clone();
    polled[1].revents = PollEvents(1);
    let r = select_complete(Ok(1), &plan.mapping, &polled, &mut read, &mut write, &mut except);
    assert_eq!(r, Ok(1));
    assert_eq!(read.as_ref().unwrap().bits, vec![false, false, false, true]);
    assert!(write.is_none());
    assert_eq!(except.as_ref().unwrap().bits, vec![false]);

    let mut read = Some(FdSet { bits: vec![false, true, false, true] });
    let mut except = Some(FdSet { bits: vec![true] });
    let plan = select_plan(&read, &write, &except);
    let polled = plan.poll_fds.clone();
    let r = select_complete(
        Err(LxError(LxError::EINTR)),
        &plan.mapping,
        &polled,
        &mut read,
        &mut write,
        &mut except,
    );
    assert_eq!(r, Err(LxError(LxError::EINTR)));
    assert_eq!(read.unwrap().bits, vec![false; 4]);
    assert_eq!(except.unwrap().bits, vec![false]);
}

#[test]
fn a_sent_frame_is_received_whole() {
    let msg = b"hello server".to_vec();
    let mut stream = encode_frame(&msg);
    stream.extend_from_slice(b"next");
    assert_eq!(take_frame(&stream), Some(msg.clone()));
    assert_eq!(take_frame(&stream[..10]), None);
    assert_eq!(take_frame(&stream[..5]), None);
    assert_eq!(take_frame(&encode_frame(&[])), Some(Vec::new()));
}

#[test]
fn signal_iteration_is_ascending_and_complete() {
    let mut set = KernelSigSet::empty();
    for s in [17u32, 2, 64, 9] {
        set.add(SigNum(s));
    }
    let sigs: Vec<u32> = set.signals().iter().map(|s| s.0).collect();
    assert_eq!(sigs, vec![2, 9, 17, 64]);
    let mut it = set.iter();
    let mut seen = Vec::new();
    while let Some(s) = it.next() {
        seen.push(s.0);
    }
    assert_eq!(seen, sigs);
    assert_eq!(it.next(), None);
    let back = KernelSigSet::from_iter(&set.signals());
    assert_eq!(back.0, set.0);
}
