use mactux::error::LxError;
use mactux::ipc::NetworkNames;
use mactux::misc::GrndFlags;
use mactux::mm::Madvice;
use mactux::process::RLimitable;
use mactux::rtenv::error_report::print_registers;
use mactux::rtenv::mm::{advise, remap, AdvicePlan};
use mactux::ucontext::DarwinMContext;
use mactux::sync::{FutexOp, FutexOpts};
use mactux::syscall::{
    advance_offset, check_sigset_size, clone_return, handler, ret_buf, sys_arch_prctl,
    sys_copy_file_range, sys_futex, sys_getcwd, sys_getdents64, sys_getgroups, sys_getrandom,
    sys_invalid, sys_prlimit64, sys_sched_getaffinity, sys_sendfile, sys_setdomainname,
    sys_sethostname, CopyPlan, FutexRoute, GroupsReply, InvalidSyscall, RandomSource, Syscall,
};

#[test]
fn getcwd_adds_a_nul_or_fails() {
    assert_eq!(sys_getcwd(b"/home", 6), Ok(b"/home\0".to_vec()));
    assert_eq!(sys_getcwd(b"/home", 5), Err(LxError(LxError::ENOMEM)));
    assert_eq!(sys_getcwd(b"", 1), Ok(vec![0u8]));
}

#[test]
fn getdents64_reports_the_entry_size() {
    assert_eq!(sys_getdents64(None, 10), Ok(0));
    assert_eq!(sys_getdents64(Some(24), 24), Ok(24));
    assert_eq!(sys_getdents64(Some(25), 24), Err(LxError(LxError::ENOMEM)));
}

#[test]
fn ret_buf_checks_the_room() {
    assert_eq!(ret_buf(b"abc", 3), Ok(3));
    assert_eq!(ret_buf(b"abc", 2), Err(LxError(LxError::ERANGE)));
}

#[test]
fn only_eight_byte_signal_sets() {
    assert_eq!(check_sigset_size(8), Ok(()));
    assert_eq!(check_sigset_size(128), Err(LxError(LxError::EINVAL)));
}

#[test]
fn copy_file_range_plans_one_chunk() {
    assert_eq!(
        sys_copy_file_range(3, None, 4, None, 10_000, 1),
        Err(LxError(LxError::EINVAL))
    );
    assert_eq!(
        sys_copy_file_range(3, Some(5), 4, None, 100, 0),
        Ok(CopyPlan { chunk: 100, read_fd: 3, read_at: Some(5), write_fd: 4, write_at: None })
    );
    assert_eq!(
        sys_copy_file_range(3, None, 4, Some(7), 10_000, 0),
        Ok(CopyPlan { chunk: 4096, read_fd: 3, read_at: None, write_fd: 4, write_at: Some(7) })
    );
    assert_eq!(
        sys_sendfile(9, 3, None, 5000),
        CopyPlan { chunk: 4096, read_fd: 3, read_at: None, write_fd: 9, write_at: None }
    );
    assert_eq!(advance_offset(10, 4096), 4106);
}

#[test]
fn prlimit64_only_for_the_calling_process() {
    let nofile = RLimitable(RLimitable::RLIMIT_NOFILE);
    assert_eq!(sys_prlimit64(42, 7, nofile), Err(LxError(LxError::EPERM)));
    assert_eq!(sys_prlimit64(0, 7, nofile), Ok(Some(8)));
    assert_eq!(sys_prlimit64(7, 7, nofile), Ok(Some(8)));
    assert_eq!(sys_prlimit64(-1, 7, RLimitable(RLimitable::RLIMIT_RTPRIO)), Ok(None));
}

#[test]
fn getgroups_counts_or_copies() {
    assert_eq!(sys_getgroups(0, 3), Ok(GroupsReply::Count(3)));
    assert_eq!(sys_getgroups(2, 3), Err(LxError(LxError::EINVAL)));
    assert_eq!(sys_getgroups(3, 3), Ok(GroupsReply::Copy(3)));
}

#[test]
fn futex_commands_are_routed() {
    assert_eq!(sys_futex(FutexOp(128)), Ok(FutexRoute::Wait(FutexOpts(128))));
    assert_eq!(sys_futex(FutexOp(129)), Ok(FutexRoute::Wake(FutexOpts(128))));
    assert_eq!(sys_futex(FutexOp(5)), Ok(FutexRoute::WakeOp(FutexOpts(0))));
    assert_eq!(sys_futex(FutexOp(6)), Ok(FutexRoute::LockPi));
    assert_eq!(sys_futex(FutexOp(3)), Err(LxError(LxError::EINVAL)));
}

#[test]
fn getrandom_source() {
    assert_eq!(sys_getrandom(GrndFlags(GrndFlags::GRND_RANDOM)), RandomSource::Device);
    assert_eq!(sys_getrandom(GrndFlags(GrndFlags::GRND_NONBLOCK)), RandomSource::Generator);
}

#[test]
fn host_and_domain_names_are_set_apart() {
    let names = NetworkNames { nodename: b"old".to_vec(), domainname: b"dom".to_vec() };
    let r = sys_sethostname(names, b"new".to_vec());
    assert_eq!(r.nodename, b"new".to_vec());
    assert_eq!(r.domainname, b"dom".to_vec());
    let r = sys_setdomainname(r, b"example".to_vec());
    assert_eq!(r.nodename, b"new".to_vec());
    assert_eq!(r.domainname, b"example".to_vec());
}

#[test]
fn affinity_has_every_cpu() {
    assert_eq!(sys_sched_getaffinity(3), vec![0xff, 0xff, 0xff]);
    assert_eq!(sys_sched_getaffinity(0), Vec::<u8>::new());
}

#[test]
fn arch_prctl_codes() {
    assert_eq!(sys_arch_prctl(0x1002, 0x7000), Ok(0x7000));
    assert_eq!(sys_arch_prctl(0x1001, 0x7000), Err(LxError(LxError::EOPNOTSUPP)));
    assert_eq!(sys_arch_prctl(0x1003, 0), Err(LxError(LxError::EINVAL)));
}

#[test]
fn clone_register_values() {
    assert_eq!(clone_return(Ok(0)), 0);
    assert_eq!(clone_return(Ok(1234)), 1234);
    assert_eq!(clone_return(Err(LxError(LxError::EAGAIN))), (-11i64) as u64);
}

#[test]
fn unsupported_calls_are_reported() {
    match sys_invalid(999, true) {
        InvalidSyscall::Ignore { message, ret } => {
            assert_eq!(message, " [ ! ] MacTux: Unsupported syscall: 999, ignoring!\n");
            assert_eq!(ret, (-38i64) as u64);
        }
        other => panic!("unexpected {:?}", other),
    }
    match sys_invalid(7, false) {
        InvalidSyscall::Exit { message } => {
            assert_eq!(message, " [ ! ] MacTux: Unsupported syscall: 7, exiting!\n");
        }
        other => panic!("unexpected {:?}", other),
    }
}

#[test]
fn dispatch_by_number() {
    assert_eq!(handler(0), Some(Syscall::Read));
    assert_eq!(handler(57), Some(Syscall::Fork));
    assert_eq!(handler(58), Some(Syscall::Vfork));
    assert_eq!(handler(158), Some(Syscall::ArchPrctl));
    assert_eq!(handler(439), Some(Syscall::Faccessat2));
    assert_eq!(handler(479), Some(Syscall::PseudoRestorectx));
    assert_eq!(handler(29), None);
    assert_eq!(handler(480), None);
    assert_eq!(handler(usize::MAX), None);
}

#[test]
fn madvise_on_darwin() {
    assert_eq!(advise(Madvice(Madvice::MADV_FREE)), Ok(AdvicePlan::Native(5)));
    assert_eq!(advise(Madvice(Madvice::MADV_MERGEABLE)), Ok(AdvicePlan::Ignore));
    assert_eq!(advise(Madvice(Madvice::MADV_PAGEOUT)), Ok(AdvicePlan::Ignore));
    assert_eq!(advise(Madvice(Madvice::MADV_HUGEPAGE)), Err(LxError(LxError::EINVAL)));
}

#[test]
fn mremap_copies_the_smaller_size() {
    let p = remap(8192, 4096);
    assert_eq!(p.prot, 3);
    assert_eq!(p.flags, 0x1002);
    assert_eq!(p.len, 4096);
    assert_eq!(p.copy, 4096);
    assert_eq!(remap(100, 4096).copy, 100);
}

#[test]
fn register_report_lines() {
    let ctx = DarwinMContext {
        rax: 0x1, rbx: 0x2, rcx: 0x3, rdx: 0x4, rdi: 0xdead_beef, rsi: 0x6, rbp: 0x7, rsp: 0x8,
        r8: 0x9, r9: 0xa, r10: 0xb, r11: 0xc, r12: 0xd, r13: 0xe, r14: 0xf, r15: 0x10,
        rip: 0xffff_ffff_ffff_ffff, rflags: 0x202, cs: 0x2b, fs: 0, gs: 0x11, trapno: 0, err: 0,
    };
    let report = print_registers(&ctx);
    let lines: Vec<&str> = report.lines().collect();
    assert_eq!(lines.len(), 6);
    assert_eq!(
        lines[0],
        "  rax=0x0000000000000001, rbx=0x0000000000000002, rcx=0x0000000000000003, rdx=0x0000000000000004,"
    );
    assert_eq!(
        lines[1],
        "   r8=0x0000000000000009,  r9=0x000000000000000a, r10=0x000000000000000b, r11=0x000000000000000c,"
    );
    assert_eq!(
        lines[3],
        "  rip=0xffffffffffffffff, rsp=0x0000000000000008, rbp=0x0000000000000007, rsi=0x0000000000000006,"
    );
    assert_eq!(lines[4], "  rdi=0x00000000deadbeef,");
    assert_eq!(
        lines[5],
        "  rfl=0x0000000000000202,  cs=0x000000000000002b,  fs=0x0000000000000000,  gs=0x0000000000000011,"
    );
    assert!(report.ends_with(",\n"));
}
