use mactux::error::LxError;
use mactux::fs::{AccessFlags, AtFlags, OpenFlags};
use mactux::io::{PollEvents, Whence};
use mactux::mm::{Madvice, MmapFlags, MmapProt, MsyncFlags};
use mactux::net::{Domain, Protocol, ShutdownHow, SockOpt, SockOptLevel, SocketKind};
use mactux::process::{RLimitable, RUsageWho};
use mactux::signal::{MaskHowto, SigNum};
use mactux::terminal::{ControlFlags, InputFlags, LocalFlags, OutputFlags, TcFlowAction};
use mactux::time::ClockId;
use mactux::{FromApple, ToApple};

#[test]
fn error_numbers_cross_platforms() {
    assert_eq!(LxError(LxError::EAGAIN).to_apple(), Ok(35));
    assert_eq!(LxError::from_apple(35), Ok(LxError(LxError::EAGAIN)));
    assert_eq!(LxError(LxError::ENOSYS).to_apple(), Ok(78));
    assert_eq!(LxError::from_apple(2), Ok(LxError(LxError::ENOENT)));
}

#[test]
fn unknown_error_numbers_are_invalid() {
    assert_eq!(LxError::from_apple(9999), Err(LxError(LxError::EINVAL)));
    assert_eq!(LxError(LxError::EBADFD).to_apple(), Err(LxError(LxError::EINVAL)));
    assert_eq!(LxError::from_apple_or_eio(9999), LxError(LxError::EIO));
    assert_eq!(LxError::from_apple_or_eio(13), LxError(LxError::EACCES));
}

#[test]
fn last_apple_error_is_a_linux_error() {
    let e = LxError::last_apple_error();
    assert!(e.0 > 0);
}

#[test]
fn signal_numbers_cross_platforms() {
    assert_eq!(SigNum(SigNum::SIGUSR1).to_apple(), Ok(30));
    assert_eq!(SigNum::from_apple(30), Ok(SigNum(SigNum::SIGUSR1)));
    assert_eq!(SigNum(SigNum::SIGCHLD).to_apple(), Ok(20));
    assert_eq!(SigNum(SigNum::SIGRTMIN).to_apple(), Err(LxError(LxError::EINVAL)));
    assert_eq!(SigNum::from_apple(0), Err(LxError(LxError::EINVAL)));
}

#[test]
fn signal_round_trip_for_every_darwin_signal() {
    for sig in 1..=31u32 {
        if let Ok(apple) = SigNum(sig).to_apple() {
            assert_eq!(SigNum::from_apple(apple), Ok(SigNum(sig)));
        }
    }
}

#[test]
fn mask_howto_values() {
    assert_eq!(MaskHowto(MaskHowto::SIG_BLOCK).to_apple(), Ok(1));
    assert_eq!(MaskHowto(MaskHowto::SIG_SETMASK).to_apple(), Ok(3));
    assert_eq!(MaskHowto::from_apple(2), Ok(MaskHowto(MaskHowto::SIG_UNBLOCK)));
    assert_eq!(MaskHowto(7).to_apple(), Err(LxError(LxError::EINVAL)));
}

#[test]
fn clock_ids() {
    assert_eq!(ClockId(ClockId::CLOCK_MONOTONIC).to_apple(), Ok(6));
    assert_eq!(ClockId::from_apple(12), Ok(ClockId(ClockId::CLOCK_PROCESS_CPUTIME_ID)));
    assert_eq!(ClockId(99).to_apple(), Err(LxError(LxError::EINVAL)));
}

#[test]
fn open_flags_to_darwin() {
    let f = OpenFlags(OpenFlags::O_CLOEXEC | OpenFlags::O_NONBLOCK);
    assert_eq!(f.to_apple(), Ok(0x0100_0000 | 0x4));
    assert!(OpenFlags(OpenFlags::O_RDONLY).is_readable());
    assert!(!OpenFlags(OpenFlags::O_RDONLY).is_writable());
}

#[test]
fn access_and_at_flags() {
    assert_eq!(AccessFlags(AccessFlags::R_OK | AccessFlags::W_OK).to_apple(), Ok(6));
    assert_eq!(AccessFlags::from_apple(1), Ok(AccessFlags(AccessFlags::X_OK)));
    assert!(AtFlags(AtFlags::AT_EMPTY_PATH).contains(AtFlags::AT_EMPTY_PATH));
    assert_eq!(AtFlags::empty().0, 0);
}

#[test]
fn whence_values() {
    assert_eq!(Whence(Whence::SEEK_END).to_apple(), Ok(2));
    assert_eq!(Whence(5).to_apple(), Err(LxError(LxError::EINVAL)));
}

#[test]
fn poll_events_map_through_table() {
    let ev = PollEvents(PollEvents::POLLIN | PollEvents::POLLOUT);
    assert_eq!(ev.to_apple(), 0x1 | 0x4);
    assert_eq!(PollEvents::from_apple(0x8), PollEvents(PollEvents::POLLERR));
}

#[test]
fn mmap_protection_adds_write_to_exec() {
    assert_eq!(MmapProt(MmapProt::PROT_EXEC).to_apple(), Ok(4 | 2));
    assert_eq!(MmapProt(MmapProt::PROT_READ).to_apple(), Ok(1));
    assert_eq!(MmapProt(0).to_apple(), Ok(0));
}

#[test]
fn mmap_and_msync_flags() {
    assert_eq!(MmapFlags(MmapFlags::MAP_ANON | MmapFlags::MAP_PRIVATE).to_apple(), Ok(0x1002));
    assert_eq!(MmapFlags::from_apple(0x1010), Ok(MmapFlags(0x30)));
    assert_eq!(MsyncFlags(MsyncFlags::MS_SYNC).to_apple(), Ok(0x10));
}

#[test]
fn madvice_values() {
    assert_eq!(Madvice(Madvice::MADV_FREE).to_apple(), Ok(5));
    assert_eq!(Madvice(Madvice::MADV_HUGEPAGE).to_apple(), Err(LxError(LxError::EINVAL)));
    assert_eq!(Madvice::from_apple(5), Ok(Madvice(Madvice::MADV_FREE)));
}

#[test]
fn socket_constants() {
    assert_eq!(Domain(Domain::PF_INET6).to_apple(), Ok(30));
    assert_eq!(SocketKind(SocketKind::SOCK_DGRAM).to_apple(), Ok(2));
    assert_eq!(Protocol(Protocol::IPPROTO_TCP).to_apple(), Ok(6));
    assert_eq!(SockOpt(SockOpt::SO_REUSEADDR).to_apple(), Ok(4));
    assert_eq!(SockOpt(SockOpt::SO_PEERCRED).to_apple(), Ok(1));
    assert_eq!(SockOpt::from_apple(1), Ok(SockOpt(SockOpt::SO_DEBUG)));
    assert_eq!(SockOptLevel(SockOptLevel::SOL_SOCKET).to_apple(), Ok(0xffff));
    assert_eq!(ShutdownHow(ShutdownHow::SHUT_RDWR).to_apple(), Ok(2));
}

#[test]
fn resource_constants() {
    assert_eq!(RLimitable(RLimitable::RLIMIT_NOFILE).to_apple(), Ok(8));
    assert_eq!(RLimitable(RLimitable::RLIMIT_RSS).to_apple(), Err(LxError(LxError::EINVAL)));
    assert_eq!(RUsageWho(RUsageWho::RUSAGE_CHILDREN).to_apple(), Ok(-1));
    assert_eq!(RUsageWho(RUsageWho::RUSAGE_THREAD).to_apple(), Ok(0));
    assert_eq!(RUsageWho::from_apple(0), Ok(RUsageWho(RUsageWho::RUSAGE_SELF)));
}

#[test]
fn terminal_flags_map_through_tables() {
    assert_eq!(InputFlags(InputFlags::IXON).to_apple(), Ok(0x200));
    assert_eq!(InputFlags(InputFlags::IUCLC).to_apple(), Ok(0));
    assert_eq!(OutputFlags(OutputFlags::ONLCR).to_apple(), Ok(0x2));
    assert_eq!(ControlFlags(ControlFlags::CS8).to_apple(), Ok(0x300));
    assert_eq!(LocalFlags(LocalFlags::ICANON | LocalFlags::ECHO).to_apple(), Ok(0x100 | 0x8));
    assert_eq!(LocalFlags::from_apple(0x80), Ok(LocalFlags(LocalFlags::ISIG)));
}

#[test]
fn tcflow_actions() {
    assert_eq!(TcFlowAction(TcFlowAction::TCOOFF).to_apple(), Ok(1));
    assert_eq!(TcFlowAction::from_apple(4), Ok(TcFlowAction(TcFlowAction::TCION)));
}

#[test]
fn known_flags_survive_a_trip_to_darwin() {
    let open = OpenFlags(OpenFlags::O_WRONLY | OpenFlags::O_CREAT | OpenFlags::O_CLOEXEC);
    let apple = open.to_apple().unwrap();
    assert_eq!(OpenFlags::from_apple(apple).unwrap(), open);

    let mmap = MmapFlags(MmapFlags::MAP_PRIVATE | MmapFlags::MAP_ANON | 0x4000_0000);
    let back = MmapFlags::from_apple(mmap.to_apple().unwrap()).unwrap();
    assert_eq!(back, MmapFlags(MmapFlags::MAP_PRIVATE | MmapFlags::MAP_ANON));

    let sync = MsyncFlags(MsyncFlags::MS_SYNC | MsyncFlags::MS_INVALIDATE);
    assert_eq!(MsyncFlags::from_apple(sync.to_apple().unwrap()).unwrap(), sync);

    let events = PollEvents(PollEvents::POLLIN | PollEvents::POLLHUP | 0x400);
    assert_eq!(
        PollEvents::from_apple(events.to_apple()),
        PollEvents(PollEvents::POLLIN | PollEvents::POLLHUP)
    );

    let input = InputFlags(InputFlags::IXON | InputFlags::IXOFF | InputFlags::IUCLC);
    let back = InputFlags::from_apple(input.to_apple().unwrap()).unwrap();
    assert_eq!(back, InputFlags(InputFlags::IXON | InputFlags::IXOFF));
    let local = LocalFlags(LocalFlags::ICANON | LocalFlags::ECHO);
    assert_eq!(LocalFlags::from_apple(local.to_apple().unwrap()).unwrap(), local);
}
