use mactux::error::LxError;
use mactux::fs::{AccessFlags, AtFlags, OpenFlags, UmountFlags};
use mactux::io::{FcntlCmd, FdSet, PollEvents, PollFd, Whence};
use mactux::ipc::{CtrlOutput, Request, Response, VfdAvailCtrl};
use mactux::mapper::PidMapper;
use mactux::misc::RustLogLevel;
use mactux::net::{SockAddrIn, SockAddrUn, SaFamily, InAddr, SockOpt, SocketFlags};
use mactux::rtenv::emuctx::{enter_emulated, enter_thread, exit_thread, in_emulated, leave_emulated, ThreadInfoMap};
use mactux::rtenv::fs::{at_path, full_path, getdents64, openat, rename, symlink, AtBase, FilesystemContext, at_base_path};
use mactux::rtenv::io::{close_fd, ctrl, fcntl, pipe, pipe_job_value, reply_ctrl, reply_read, select_finish, select_plan, CtrlKind, PipeJob, VecTransfer, VfdFcntl};
use mactux::rtenv::misc::{reply_network_names, RustLogger};
use mactux::rtenv::net::{apple_sockaddr_un, apple_sun_path, get, get_finish, AppleOptValue, SockOptImpl, SocketLevel, prepare_accepted};
use mactux::rtenv::thread::{kill, MINIMUM_TID, ThreadCtx, ThreadPubCtx, ThreadPubCtxMap, may_fork};
use mactux::rtenv::util::{c_path, RtenvPidMapper};
use mactux::rtenv::vfd::VfdTable;
use mactux::rtenv::{reply_nothing, reply_path, reply_vfd};
use mactux::signal::SigNum;

#[test]
fn paths_join_relative_ones() {
    assert_eq!(at_path(b"/home", b"a/b".to_vec()), b"/home/a/b".to_vec());
    assert_eq!(at_path(b"/home", b"/etc".to_vec()), b"/etc".to_vec());
    assert_eq!(full_path(b"/", b"x".to_vec()), b"//x".to_vec());
}

#[test]
fn cwd_must_be_absolute() {
    let mut fs = FilesystemContext::new();
    assert_eq!(fs.getcwd(), b"/".to_vec());
    assert_eq!(fs.init_cwd(b"rel".to_vec()), Err(LxError(LxError::EINVAL)));
    assert_eq!(fs.getcwd(), b"/".to_vec());
    assert_eq!(fs.init_cwd(b"/tmp".to_vec()), Ok(()));
    assert_eq!(fs.getcwd(), b"/tmp".to_vec());
}

#[test]
fn at_base_of_descriptors() {
    let mut table = VfdTable::new();
    table.register(5, 77);
    let fs = FilesystemContext::new();
    assert!(matches!(at_base_path(&table, &fs, 5), AtBase::Virtual(77)));
    assert!(matches!(at_base_path(&table, &fs, -100), AtBase::Path(p) if p == b"/"));
    assert!(matches!(at_base_path(&table, &fs, 6), AtBase::NotDir));
}

#[test]
fn path_requests() {
    match symlink(b"/w", b"target".to_vec(), b"link".to_vec()) {
        Request::Symlink(a, b) => {
            assert_eq!(a, b"target".to_vec());
            assert_eq!(b, b"/w/link".to_vec());
        },
        _ => panic!("wrong request"),
    }
    assert!(matches!(rename(b"/w", b"a".to_vec(), b"/b".to_vec()), Request::Rename(a, b) if a == b"/w/a" && b == b"/b"));
    let open = openat(b"/w", b"f".to_vec(), OpenFlags(OpenFlags::O_RDONLY), AtFlags(AtFlags::AT_SYMLINK_NOFOLLOW), 0o644);
    assert!(matches!(open, Request::Open(p, f, m) if p == b"/w/f" && f == OpenFlags::O_NOFOLLOW && m == 0o644));
    let _ = (AccessFlags(0), UmountFlags(0));
}

#[test]
fn getdents_needs_a_virtual_descriptor() {
    let mut table = VfdTable::new();
    table.register(4, 9);
    assert!(matches!(getdents64(&table, 4), Ok(Request::VirtualFdGetDents64(9))));
    assert!(matches!(getdents64(&table, 5), Err(LxError(LxError::EBADF))));
}

#[test]
fn vfd_table_register_take() {
    let mut t = VfdTable::new();
    t.register(3, 30);
    t.register(4, 40);
    t.register(3, 31);
    assert_eq!(t.get(3), Some(31));
    assert_eq!(t.take(3), Some(31));
    assert_eq!(t.get(3), None);
    assert_eq!(t.take(3), None);
    assert_eq!(t.get(4), Some(40));
}

#[test]
fn vfd_table_text_round_trip() {
    let mut t = VfdTable::new();
    t.register(3, 30);
    t.register(-7, 18446744073709551615);
    t.register(8, 80);
    let text = t.export_table(&[Ok(0), Ok(0), Ok(1)]).unwrap();
    assert_eq!(text, "3:30,-7:18446744073709551615,");
    let mut back = VfdTable::new();
    assert_eq!(back.fill_table(&text), Ok(()));
    assert_eq!(back.get(3), Some(30));
    assert_eq!(back.get(-7), Some(18446744073709551615));
    assert_eq!(back.get(8), None);
}

#[test]
fn vfd_table_text_errors() {
    let t = VfdTable::new();
    let mut u = VfdTable::new();
    u.register(1, 2);
    assert_eq!(u.export_table(&[Err(LxError(LxError::EBADF))]), Err(LxError(LxError::EBADF)));
    let _ = t;
    let mut v = VfdTable::new();
    assert_eq!(v.fill_table("1:2,,+3:4"), Ok(()));
    assert_eq!(v.get(3), Some(4));
    let mut w = VfdTable::new();
    assert_eq!(w.fill_table("5:6,bad,7:8"), Err(LxError(LxError::EINVAL)));
    assert_eq!(w.get(5), Some(6));
    assert_eq!(w.get(7), None);
    let mut x = VfdTable::new();
    assert_eq!(x.fill_table("1:-2"), Err(LxError(LxError::EINVAL)));
    assert_eq!(x.fill_table("99999999999:1"), Err(LxError(LxError::EINVAL)));
}

#[test]
fn replies() {
    assert_eq!(reply_nothing(Response::Nothing), Ok(()));
    assert_eq!(reply_nothing(Response::Error(LxError(LxError::EPERM))), Err(LxError(LxError::EPERM)));
    assert_eq!(reply_path(Response::LxPath(b"/x".to_vec())), Ok(b"/x".to_vec()));
    assert_eq!(reply_vfd(Response::Vfd(12)), Ok(12));
    assert_eq!(reply_network_names(Response::NetworkNames(mactux::ipc::NetworkNames { nodename: b"n".to_vec(), domainname: b"d".to_vec() })), Ok((b"n".to_vec(), b"d".to_vec())));
}

#[test]
fn read_reply_fills_the_buffer() {
    let mut buf = [9u8; 4];
    assert_eq!(reply_read(Response::Bytes(vec![1, 2]), &mut buf), Ok(2));
    assert_eq!(buf, [1, 2, 9, 9]);
    assert_eq!(reply_read(Response::Error(LxError(LxError::EIO)), &mut buf), Err(LxError(LxError::EIO)));
}

#[test]
fn control_requests() {
    let r = ctrl(CtrlKind::Ioctl, 5, 0x5401, 0x1234, VfdAvailCtrl { in_size: -1, out_size: 0 }, &[]);
    assert!(matches!(r, Request::VirtualFdIoctl(5, 0x5401, input) if input == 0x1234usize.to_le_bytes()));
    let r = ctrl(CtrlKind::Fcntl, 5, 1, 0, VfdAvailCtrl { in_size: 2, out_size: 0 }, &[7, 8]);
    assert!(matches!(r, Request::VirtualFdFcntl(5, 1, input) if input == vec![7, 8]));
    let r = ctrl(CtrlKind::Fcntl, 5, 1, 0, VfdAvailCtrl { in_size: 0, out_size: 0 }, &[]);
    assert!(matches!(r, Request::VirtualFdFcntl(5, 1, input) if input.is_empty()));
    assert_eq!(reply_ctrl(Response::CtrlOutput(CtrlOutput { status: 3, blob: vec![1] })), Ok((3, vec![1])));
    assert_eq!(reply_ctrl(Response::Nothing), Ok((0, vec![])));
}

#[test]
fn fcntl_routes() {
    assert_eq!(fcntl(FcntlCmd(FcntlCmd::F_DUPFD)), VfdFcntl::Dup);
    assert_eq!(fcntl(FcntlCmd(FcntlCmd::F_DUPFD_CLOEXEC)), VfdFcntl::DupCloexec);
    assert_eq!(fcntl(FcntlCmd(FcntlCmd::F_GETFL)), VfdFcntl::Forward);
}

#[test]
fn closing_descriptors() {
    let mut t = VfdTable::new();
    t.register(9, 90);
    assert_eq!(close_fd(&mut t, true, 9), Err(LxError(LxError::EPERM)));
    assert_eq!(t.get(9), Some(90));
    assert_eq!(close_fd(&mut t, false, 9), Ok(Some(90)));
    assert_eq!(close_fd(&mut t, false, 9), Ok(None));
}

#[test]
fn pipe_setup_steps() {
    let flags = OpenFlags(OpenFlags::O_CLOEXEC | OpenFlags::O_NONBLOCK);
    assert_eq!(pipe(flags, (3, 4)), vec![PipeJob::Cloexec(3), PipeJob::Nonblock(3), PipeJob::Cloexec(4), PipeJob::Nonblock(4)]);
    assert_eq!(pipe(OpenFlags(0), (3, 4)), vec![]);
    assert_eq!(pipe_job_value(PipeJob::Nonblock(3), 2), 6);
    assert_eq!(pipe_job_value(PipeJob::Cloexec(3), 0), 1);
}

#[test]
fn vectored_transfer_stops_short() {
    let mut t = VecTransfer::new();
    assert!(t.step(4, 4));
    assert!(!t.step(1, 3));
    assert_eq!(t.count, 5);
    assert!(VecTransfer::skips(0, 4));
    assert!(!VecTransfer::skips(8, 4));
}

#[test]
fn select_round() {
    let read = Some(FdSet { bits: vec![false, true, false, true] });
    let write = Some(FdSet { bits: vec![false, false, true] });
    let plan = select_plan(&read, &write, &None);
    assert_eq!(plan.poll_fds.len(), 3);
    assert_eq!(plan.poll_fds[0], PollFd { fd: 1, events: PollEvents(PollEvents::POLLIN), revents: PollEvents(0) });
    assert_eq!(plan.poll_fds[2].events, PollEvents(PollEvents::POLLOUT));
    assert_eq!(plan.mapping, vec![(0, 1), (0, 3), (1, 2)]);
    let mut polled = plan.poll_fds.clone();
    polled[1].revents = PollEvents(PollEvents::POLLIN);
    polled[2].revents = PollEvents(PollEvents::POLLOUT);
    let mut r = read;
    let mut w = write;
    let mut e = None;
    select_finish(&plan.mapping, &polled, &mut r, &mut w, &mut e);
    assert_eq!(r.unwrap().bits, vec![false, false, false, true]);
    assert_eq!(w.unwrap().bits, vec![false, false, true]);
    assert!(e.is_none());
}

#[test]
fn logger_formats_records() {
    match RustLogger.log(RustLogLevel::Warn, Some("app"), "hi") {
        Request::WriteSyslog(level, content) => {
            assert_eq!(level.0, 4);
            assert_eq!(content, b"app: hi".to_vec());
        },
        _ => panic!("wrong request"),
    }
    match RustLogger.log(RustLogLevel::Info, None, "x") {
        Request::WriteSyslog(_, content) => assert_eq!(content, b"mactux: x".to_vec()),
        _ => panic!("wrong request"),
    }
}

#[test]
fn emulation_state() {
    let mut map = ThreadInfoMap::new();
    enter_thread(&mut map, 7, 0x100);
    assert!(!in_emulated(&map, 7));
    let mut ctx = ThreadCtx::new();
    mactux::rtenv::emuctx::x86_64_set_emulated_gsbase(&mut ctx, 0x200);
    assert_eq!(enter_emulated(&mut map, &ctx, 7), 0x200);
    assert!(in_emulated(&map, 7));
    assert_eq!(leave_emulated(&mut map, 7), 0x100);
    assert!(!in_emulated(&map, 7));
    exit_thread(&mut map, 7);
    assert!(map.get(7).is_none());
}

#[test]
fn fork_keeps_only_the_current_thread() {
    let mut map = ThreadPubCtxMap::new();
    map.insert(1, ThreadPubCtx::new(10));
    map.insert(2, ThreadPubCtx::new(20));
    let snap = map.get(2).unwrap();
    may_fork(&mut map, false, 2, snap);
    assert!(map.get(1).is_some());
    may_fork(&mut map, true, 3, snap);
    assert!(map.get(1).is_none());
    assert!(map.get(2).is_none());
    assert_eq!(map.get(3), Some(snap));
}

#[test]
fn kill_targets() {
    assert_eq!(kill(5, SigNum(9)), Ok((5, SigNum(9))));
    assert_eq!(kill(MINIMUM_TID, SigNum(9)), Err(LxError(LxError::ESRCH)));
}

#[test]
fn small_helpers() {
    assert_eq!(c_path(b"/x".to_vec()), b"/x\0".to_vec());
    assert_eq!(RtenvPidMapper.apple_to_linux(42), Ok(42));
    assert_eq!(RtenvPidMapper.linux_to_apple(42), Ok(42));
}

#[test]
fn socket_options() {
    assert_eq!(SocketLevel::impls(13), Some(SockOptImpl::Linger));
    assert_eq!(SocketLevel::impls(31), None);
    assert_eq!(get(SockOpt(SockOpt::SO_RCVBUF), 4), Ok((0xffff, 0x1002, SockOptImpl::Int)));
    assert_eq!(get(SockOpt(SockOpt::SO_RCVBUF), 3), Err(LxError(LxError::EINVAL)));
    assert_eq!(get(SockOpt(SockOpt::SO_PRIORITY), 4), Err(LxError(LxError::EINVAL)));
    let (bytes, status) = get_finish(SockOptImpl::ReadonlyKind, AppleOptValue::Int(2), Ok(()));
    assert_eq!(bytes, vec![2, 0, 0, 0]);
    assert_eq!(status, Ok(()));
    let (bytes, status) = get_finish(SockOptImpl::ReadonlyError, AppleOptValue::Int(35), Err(LxError(LxError::EBADF)));
    assert_eq!(bytes, vec![11, 0, 0, 0]);
    assert_eq!(status, Err(LxError(LxError::EBADF)));
    assert_eq!(mactux::rtenv::net::set(SockOpt(SockOpt::SO_TYPE), &[1, 0, 0, 0]), Err(LxError(LxError::EINVAL)));
    assert_eq!(mactux::rtenv::net::set(SockOpt(SockOpt::SO_KEEPALIVE), &[1, 0, 0, 0]), Ok((0xffff, 0x8, AppleOptValue::Int(1))));
    let mut tv = Vec::new();
    tv.extend_from_slice(&5i64.to_le_bytes());
    tv.extend_from_slice(&7i64.to_le_bytes());
    assert_eq!(mactux::rtenv::net::set(SockOpt(SockOpt::SO_RCVTIMEO), &tv), Ok((0xffff, 0x1006, AppleOptValue::Timeval(5, 7))));
}

#[test]
fn accepted_connection_steps() {
    let f = SocketFlags(SocketFlags::SOCK_NONBLOCK | SocketFlags::SOCK_CLOEXEC);
    assert_eq!(prepare_accepted(f, 6), vec![PipeJob::Nonblock(6), PipeJob::Cloexec(6)]);
}

#[test]
fn local_socket_paths() {
    let mut path = [0u8; 108];
    path[1] = b'a';
    let abstract_addr = SockAddrUn { sun_family: SaFamily(1), sun_path: path };
    assert_eq!(apple_sun_path(&abstract_addr, 3), Ok(vec![0, b'a', 0]));
    let mut named = [b'x'; 108];
    let full = SockAddrUn { sun_family: SaFamily(1), sun_path: named };
    assert_eq!(apple_sun_path(&full, 3), Err(LxError(LxError::EINVAL)));
    named[5] = 0;
    let ok = SockAddrUn { sun_family: SaFamily(1), sun_path: named };
    assert_eq!(apple_sun_path(&ok, 3), Ok(b"xxxxx".to_vec()));
    let b = apple_sockaddr_un(b"/tmp/s").unwrap();
    assert_eq!(b.len(), 106);
    assert_eq!(&b[..8], b"\x6a\x01/tmp/s");
    assert_eq!(apple_sockaddr_un(&[b'y'; 105]), Err(LxError(LxError::ENOMEM)));
}

#[test]
fn ipv4_addresses_round_trip() {
    let a = SockAddrIn { sin_family: SaFamily(2), sin_port: 0x5000, sin_addr: InAddr(0x0100007f), sin_zero: [0; 8] };
    let mut buf = [0xaau8; 20];
    assert_eq!(a.write_to(&mut buf), Ok(16));
    assert_eq!(buf[16], 0xaa);
    let b = SockAddrIn::from_bytes(&buf).unwrap();
    assert_eq!(b.sin_port, 0x5000);
    assert_eq!(b.sin_addr, InAddr(0x0100007f));
    let mut apple = [0u8; 16];
    assert_eq!(a.to_apple(&mut apple), Ok(()));
    assert_eq!(&apple[..2], &[16, 2]);
    let c = SockAddrIn::from_apple(&apple).unwrap();
    assert_eq!(c.sin_port, 0x5000);
    assert_eq!(SockAddrIn::from_bytes(&buf[..10]).err(), Some(LxError(LxError::ENOMEM)));
    let _ = Whence(0);
}
