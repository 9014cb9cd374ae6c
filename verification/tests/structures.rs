use mactux::error::LxError;
use mactux::files::{Fstab, FstabEntry};
use mactux::fs::{Dirent64, Dirent64Hdr, DirentType, DarwinStat, Stat, Statx, StatxTimestamp};
use mactux::ipc::{encode_frame, frame_len, HandshakeRequest, HandshakeResponse};
use mactux::misc::{log_level, uname, uname_str, LogLevel, RustLogLevel};
use mactux::process::{
    ChildType, CloneArgs, CloneFlags, DarwinRLimit, RLimit64, WaitOptions, WaitStatus,
    APPLE_RLIM_INFINITY,
};
use mactux::signal::{KernelSigSet, SigActionFlags, SigAltStack, SigNum};
use mactux::sync::{FutexOp, FutexWakeOp, FutexWakeOpCmp, FutexWakeOpVal3};
use mactux::terminal::{ControlCharacter, ControlCharacters, DarwinTermios, Termios, Termios2, WinSize, DarwinWinSize};
use mactux::time::{Timespec, Timeval};
use mactux::{FromApple, ToApple};
use std::time::Duration;

#[test]
fn sigset_add_del_get() {
    let mut s = KernelSigSet::empty();
    s.add(SigNum(SigNum::SIGINT));
    s.add(SigNum(SigNum::SIGTERM));
    assert!(s.get(SigNum(SigNum::SIGINT)));
    assert_eq!(s.0, (1 << 1) | (1 << 14));
    s.del(SigNum(SigNum::SIGINT));
    assert!(!s.get(SigNum(SigNum::SIGINT)));
    assert!(s.get(SigNum(SigNum::SIGTERM)));
}

#[test]
fn sigset_signals_then_from_iter_is_the_same_set() {
    let s = KernelSigSet::from_bits(0x8000_0000_0000_0005);
    let sigs = s.signals();
    let v: Vec<u32> = sigs.iter().map(|x| x.0).collect();
    assert_eq!(v, vec![1, 3, 64]);
    let back = KernelSigSet::from_iter(&sigs);
    assert_eq!(back, s);
}

#[test]
fn sigset_iterator_walks_in_order() {
    let s = KernelSigSet::from_bits(0b1010);
    let mut it = s.iter();
    assert_eq!(it.next(), Some(SigNum(2)));
    assert_eq!(it.next(), Some(SigNum(4)));
    assert_eq!(it.next(), None);
}

#[test]
fn sigset_darwin_mask() {
    assert_eq!(KernelSigSet::from_apple(0xffff_ffff).0, 0x5fff_7fff);
    assert_eq!(KernelSigSet::from_apple(1 << 29).0, 1 << 9);
    assert_eq!(KernelSigSet::from_apple(1 << 6).0, 0);
    let mut s = KernelSigSet::empty();
    s.add(SigNum(SigNum::SIGUSR1));
    assert_eq!(s.to_apple(), 1 << 29);
}

#[test]
fn sigaction_flags_to_darwin() {
    let f = SigActionFlags(SigActionFlags::SA_RESTART | SigActionFlags::SA_ONSTACK);
    assert_eq!(f.to_apple(), 0x0040 | 0x0002 | 0x0001);
    assert_eq!(SigActionFlags::empty().to_apple(), 0x0040);
}

#[test]
fn altstack_flags_from_darwin() {
    let s = SigAltStack::from_apple(0x1000, 0x2000, 4);
    assert_eq!(s, SigAltStack { ss_sp: 0x1000, ss_flags: SigAltStack::SS_DISABLE, ss_size: 0x2000 });
}

#[test]
fn wait_status_exit_code() {
    assert_eq!(WaitStatus::from_apple(3 << 8), WaitStatus(3 << 8));
}

#[test]
fn wait_status_signal() {
    assert_eq!(WaitStatus::from_apple(30), WaitStatus(SigNum::SIGUSR1 as i32));
    assert_eq!(WaitStatus::from_apple(29), WaitStatus(SigNum::SIGUNUSED as i32));
}

#[test]
fn clone_flags_child_types() {
    let thread = CloneFlags(0x100 | 0x200 | 0x400 | 0x800 | 0x10000);
    assert_eq!(thread.child_type(), ChildType::Thread);
    assert_eq!(CloneFlags(CloneFlags::CLONE_VM).child_type(), ChildType::Unsupported);
    assert_eq!(CloneFlags(CloneFlags::CLONE_SETTLS).child_type(), ChildType::Process);
}

#[test]
fn wait_options() {
    assert_eq!(WaitOptions(WaitOptions::WNOHANG).to_apple(), 1);
    assert_eq!(WaitOptions(0).to_apple(), 0);
}

fn clone_bytes(n: usize) -> Vec<u8> {
    let mut v = Vec::new();
    for k in 0..(n / 8) as u64 {
        v.extend_from_slice(&(k + 1).to_le_bytes());
    }
    v
}

#[test]
fn clone_args_sizes() {
    let data = clone_bytes(88);
    assert_eq!(CloneArgs::from_ptr_size(&data, 72), Err(LxError(LxError::EINVAL)));
    let a = CloneArgs::from_ptr_size(&data, 64).unwrap();
    assert_eq!(a.flags, 1);
    assert_eq!(a.tls, 8);
    assert_eq!(a.set_tid, 0);
    assert_eq!(a.cgroup, 0);
    let b = CloneArgs::from_ptr_size(&data, 88).unwrap();
    assert_eq!(b.set_tid_size, 10);
    assert_eq!(b.cgroup, 11);
    assert_eq!(b.stack(), 6 + 7);
    assert_eq!(b.exit_signal(), SigNum(5));
    assert_eq!(b.set_tid(), (9, 10));
}

#[test]
fn rlimit_infinity_maps_both_ways() {
    let l = RLimit64::from_apple(DarwinRLimit { rlim_cur: APPLE_RLIM_INFINITY, rlim_max: 10 });
    assert_eq!(l, RLimit64 { rlim_cur: RLimit64::RLIM_INFINITY, rlim_max: 10 });
    let a = l.to_apple();
    assert_eq!(a, DarwinRLimit { rlim_cur: APPLE_RLIM_INFINITY, rlim_max: 10 });
}

#[test]
fn futex_op_fields() {
    let op = FutexOp(0x80 | 5);
    assert_eq!(op.cmd().0, 5);
    assert_eq!(op.opts().0, 0x80);
    let v = FutexWakeOpVal3(0x1402_3005);
    assert_eq!(v.op(), FutexWakeOp(1));
    assert_eq!(v.cmp(), FutexWakeOpCmp(0x4));
    assert_eq!(v.oparg(), 0x023);
    assert_eq!(v.cmparg(), 0x005);
}

#[test]
fn futex_wake_operations() {
    let mut x = 6u32;
    assert_eq!(FutexWakeOp(FutexWakeOp::FUTEX_OP_ADD).perform(&mut x, 4), Ok(()));
    assert_eq!(x, 10);
    assert_eq!(FutexWakeOp(FutexWakeOp::FUTEX_OP_ANDN).perform(&mut x, 2), Ok(()));
    assert_eq!(x, 8);
    assert_eq!(FutexWakeOp(9).perform(&mut x, 1), Err(LxError(LxError::EINVAL)));
    assert_eq!(x, 8);
    assert_eq!(FutexWakeOpCmp(FutexWakeOpCmp::FUTEX_OP_CMP_LT).perform(1, 2), Ok(true));
    assert_eq!(FutexWakeOpCmp(FutexWakeOpCmp::FUTEX_OP_CMP_GE).perform(1, 2), Ok(false));
    assert_eq!(FutexWakeOpCmp(6).perform(1, 2), Err(LxError(LxError::EINVAL)));
}

#[test]
fn control_characters_cross_platforms() {
    assert_eq!(ControlCharacter::from_apple(0xff), ControlCharacter(0));
    assert_eq!(ControlCharacter(0).to_apple(), 0xff);
    assert_eq!(ControlCharacter(3).to_apple(), 3);
    let mut apple = [0xffu8; 20];
    apple[DarwinTermios::VINTR] = 3;
    apple[DarwinTermios::VEOF] = 4;
    let cc = ControlCharacters::from_apple(apple);
    assert_eq!(cc.0[ControlCharacters::VINTR], ControlCharacter(3));
    assert_eq!(cc.0[ControlCharacters::VEOF], ControlCharacter(4));
    assert_eq!(cc.0[ControlCharacters::VQUIT], ControlCharacter(0));
    let back = cc.to_apple();
    assert_eq!(back[DarwinTermios::VINTR], 3);
    assert_eq!(back[DarwinTermios::VSTATUS], 0x14);
    assert_eq!(back[7], 0xff);
}

#[test]
fn termios_round_trip_keeps_known_bits() {
    let apple = DarwinTermios {
        c_iflag: 0x100,
        c_oflag: 0x3,
        c_cflag: 0x300 | 0x800,
        c_lflag: 0x8 | 0x100,
        c_cc: [0xff; 20],
        c_ispeed: 38400,
        c_ospeed: 9600,
    };
    let t2 = Termios2::from_apple(apple).unwrap();
    assert_eq!(t2.c_ispeed, 38400);
    let back = t2.to_apple().unwrap();
    assert_eq!(back.c_iflag, 0x100);
    assert_eq!(back.c_oflag, 0x3);
    assert_eq!(back.c_cflag, 0x300 | 0x800);
    assert_eq!(back.c_lflag, 0x8 | 0x100);
    let t = Termios::from_apple(apple).unwrap();
    assert_eq!(t.c_line, 0);
    let back1 = t.to_apple().unwrap();
    assert_eq!(back1.c_ispeed, 0);
}

#[test]
fn winsize_conversion() {
    let w = WinSize { ws_row: 24, ws_col: 80, ws_xpixel: 0, ws_ypixel: 0 };
    let a = w.to_apple();
    assert_eq!(WinSize::from(a), w);
    assert_eq!(a, DarwinWinSize { ws_row: 24, ws_col: 80, ws_xpixel: 0, ws_ypixel: 0 });
}

#[test]
fn timespec_to_duration() {
    let t = Timespec { tv_sec: 3, tv_nsec: 500 };
    assert_eq!(t.to_duration(), Duration::new(3, 500));
    let t2 = Timespec { tv_sec: 1, tv_nsec: 1_500_000_000 };
    assert_eq!(t2.to_duration(), Duration::new(2, 500_000_000));
}

#[test]
fn timeval_to_timespec() {
    let tv = Timeval::from_apple(7, 250);
    assert_eq!(tv.to_timespec(), Timespec { tv_sec: 7, tv_nsec: 250_000 });
}

#[test]
fn statx_from_darwin() {
    let st = DarwinStat {
        st_dev: 1, st_mode: 0o100644, st_nlink: 2, st_ino: 42, st_uid: 501, st_gid: 20,
        st_rdev: 0, st_atime: 10, st_atime_nsec: 1, st_mtime: 20, st_mtime_nsec: 2,
        st_ctime: 30, st_ctime_nsec: 3, st_birthtime: 5, st_birthtime_nsec: 4, st_size: 4096,
        st_blocks: 8, st_blksize: 4096,
    };
    let x = Statx::from_apple(st);
    assert_eq!(x.stx_ino, 42);
    assert_eq!(x.stx_nlink, 2);
    assert_eq!(x.stx_mtime, StatxTimestamp { tv_sec: 20, tv_nsec: 2 });
    assert_eq!(x.stx_btime, StatxTimestamp { tv_sec: 5, tv_nsec: 4 });
    let s = Stat::from_statx(x);
    assert_eq!(s.st_size, 4096);
}

#[test]
fn dirent_record_bytes() {
    let hdr = Dirent64Hdr { d_ino: 1, d_off: 2, d_reclen: 0, d_type: DirentType::from_kind(true, false), _align: [0; 5] };
    let d = Dirent64::new(hdr, b"ab".to_vec());
    assert_eq!(d.size(), 24 + 2 + 1);
    assert_eq!(d.name(), b"ab");
    let b = d.to_bytes();
    assert_eq!(b.len(), 8 + 8 + 2 + 1 + 2 + 1);
    assert_eq!(&b[16..18], &[27, 0]);
    assert_eq!(b[18], DirentType::DT_DIR);
    assert_eq!(&b[19..], b"ab\0");
}

#[test]
fn uname_fields() {
    assert_eq!(uname_str(&[b'x'; 65]), Err(LxError(LxError::ENOMEM)));
    let f = uname_str(b"Linux").unwrap();
    assert_eq!(&f[..6], b"Linux\0");
    let u = uname(&[b'n'; 70], b"local");
    assert_eq!(&u.sysname[..5], b"Linux");
    assert_eq!(u.nodename[63], b'n');
    assert_eq!(u.nodename[64], 0);
    assert_eq!(&u.domainname[..6], b"local\0");
    assert_eq!(&u.machine[..7], b"x86_64\0");
}

#[test]
fn log_levels() {
    assert_eq!(log_level(RustLogLevel::Error), LogLevel(LogLevel::KERN_ERR));
    assert_eq!(log_level(RustLogLevel::Trace), LogLevel(LogLevel::KERN_DEBUG));
}

#[test]
fn fstab_entry_parse_and_write() {
    let e = FstabEntry::parse("/dev/sda1  /  ext4 defaults 0 1").unwrap();
    assert_eq!(e.device, "/dev/sda1");
    assert_eq!(e.pass, 1);
    assert_eq!(e.to_string(), "/dev/sda1 / ext4 defaults 0 1");
    assert!(FstabEntry::parse("/dev/sda1 / ext4 defaults 0").is_err());
    assert!(FstabEntry::parse("/dev/sda1 / ext4 defaults x 1").is_err());
}

#[test]
fn fstab_text_round_trip() {
    let text = "# comment\n\n/dev/a /mnt vfat rw 0 2\nproc /proc proc defaults 0 0\n";
    let t = Fstab::parse(text).unwrap();
    assert_eq!(t.0.len(), 2);
    let written = t.to_string();
    assert_eq!(written, "/dev/a /mnt vfat rw 0 2\nproc /proc proc defaults 0 0\n");
    let again = Fstab::parse(&written).unwrap();
    assert_eq!(again.to_string(), written);
}

#[test]
fn handshake_messages() {
    assert_eq!(HandshakeRequest::new().magic, *b"MACTUXHQ");
    let r = HandshakeResponse::new();
    assert_eq!(r.magic, *b"MACTUXHS");
    assert!(r.is_expected());
    let other = HandshakeResponse { magic: *b"MACTUXHS", version: String::from("9.9.9") };
    assert!(!other.is_expected());
}

#[test]
fn frames_announce_their_length() {
    let f = encode_frame(b"hello");
    assert_eq!(f.len(), 13);
    let mut header = [0u8; 8];
    header.copy_from_slice(&f[..8]);
    assert_eq!(frame_len(&header), 5);
    assert_eq!(&f[8..], b"hello");
}
