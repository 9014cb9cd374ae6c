//! The user context that a signal handler receives.

use vstd::prelude::*;

use crate::flags::flags_from_apple;
use crate::signal::{KernelSigSet, SigAltStack};

verus! {

/// Flags of a user context; none is defined.
#[derive(Debug, Clone, Copy, PartialEq, Eq, Structural)]
pub struct UContextFlags(pub u64);

/// The Darwin x86_64 machine context, as plain values: the thread state and, of the exception
/// state, the trap number and the error code.
#[derive(Debug, Clone, Copy, PartialEq, Eq, Structural)]
pub struct DarwinMContext {
    pub rax: u64,
    pub rbx: u64,
    pub rcx: u64,
    pub rdx: u64,
    pub rdi: u64,
    pub rsi: u64,
    pub rbp: u64,
    pub rsp: u64,
    pub r8: u64,
    pub r9: u64,
    pub r10: u64,
    pub r11: u64,
    pub r12: u64,
    pub r13: u64,
    pub r14: u64,
    pub r15: u64,
    pub rip: u64,
    pub rflags: u64,
    pub cs: u64,
    pub fs: u64,
    pub gs: u64,
    pub trapno: u16,
    pub err: u32,
}

/// The x86_64 machine context as Linux lays it out.
#[derive(Debug, Clone, Copy)]
pub struct MContext {
    pub r8: u64,
    pub r9: u64,
    pub r10: u64,
    pub r11: u64,
    pub r12: u64,
    pub r13: u64,
    pub r14: u64,
    pub r15: u64,
    pub rdi: u64,
    pub rsi: u64,
    pub rbp: u64,
    pub rbx: u64,
    pub rdx: u64,
    pub rax: u64,
    pub rcx: u64,
    pub rsp: u64,
    pub rip: u64,
    pub rflags: u64,
    pub cs: u16,
    pub gs: u16,
    pub fs: u16,
    pub ss: u16,
    pub err: u64,
    pub trapno: u64,
    pub oldmask: u64,
    pub cr2: u64,
    pub fpstate: u64,
    pub reserved: [u64; 8],
}

/// Whether the general registers of `m` are those of the Darwin context `a`.
pub open spec fn registers_match(m: MContext, a: DarwinMContext) -> bool {
    &&& m.r8 == a.r8 && m.r9 == a.r9 && m.r10 == a.r10 && m.r11 == a.r11
    &&& m.r12 == a.r12 && m.r13 == a.r13 && m.r14 == a.r14 && m.r15 == a.r15
    &&& m.rdi == a.rdi && m.rsi == a.rsi && m.rbp == a.rbp && m.rbx == a.rbx
    &&& m.rdx == a.rdx && m.rax == a.rax && m.rcx == a.rcx && m.rsp == a.rsp
    &&& m.rip == a.rip && m.rflags == a.rflags
}

impl MContext {
    /// The Linux context of a Darwin one: the registers, the segment selectors cut to 16 bits,
    /// the trap number and error code; the rest zero.
    pub fn from_apple(apple: &DarwinMContext) -> (r: Self)
        ensures
            registers_match(r, *apple),
            r.cs == apple.cs as u16,
            r.gs == apple.gs as u16,
            r.fs == apple.fs as u16,
            r.ss == 0,
            r.err == apple.err as u64,
            r.trapno == apple.trapno as u64,
            r.fpstate == 0,
            r.oldmask == 0,
            r.cr2 == 0,
            forall|i: int| 0 <= i < 8 ==> r.reserved@[i] == 0,
    {
        MContext {
            r8: apple.r8,
            r9: apple.r9,
            r10: apple.r10,
            r11: apple.r11,
            r12: apple.r12,
            r13: apple.r13,
            r14: apple.r14,
            r15: apple.r15,
            rdi: apple.rdi,
            rsi: apple.rsi,
            rbp: apple.rbp,
            rbx: apple.rbx,
            rdx: apple.rdx,
            rax: apple.rax,
            rcx: apple.rcx,
            rsp: apple.rsp,
            rip: apple.rip,
            rflags: apple.rflags,
            cs: apple.cs as u16,
            gs: apple.gs as u16,
            fs: apple.fs as u16,
            ss: 0,
            err: apple.err as u64,
            trapno: apple.trapno as u64,
            fpstate: 0,
            oldmask: 0,
            cr2: 0,
            reserved: [0, 0, 0, 0, 0, 0, 0, 0],
        }
    }

    /// Writes the registers and segment selectors back into a Darwin context; the exception
    /// state stays as it was.
    pub fn write_to_apple(&self, apple: &mut DarwinMContext)
        ensures
            registers_match(*self, *final(apple)),
            final(apple).cs == self.cs as u64,
            final(apple).gs == self.gs as u64,
            final(apple).fs == self.fs as u64,
            final(apple).trapno == old(apple).trapno,
            final(apple).err == old(apple).err,
    {
        apple.r8 = self.r8;
        apple.r9 = self.r9;
        apple.r10 = self.r10;
        apple.r11 = self.r11;
        apple.r12 = self.r12;
        apple.r13 = self.r13;
        apple.r14 = self.r14;
        apple.r15 = self.r15;
        apple.rdi = self.rdi;
        apple.rsi = self.rsi;
        apple.rbp = self.rbp;
        apple.rbx = self.rbx;
        apple.rdx = self.rdx;
        apple.rax = self.rax;
        apple.rcx = self.rcx;
        apple.rsp = self.rsp;
        apple.rip = self.rip;
        apple.rflags = self.rflags;
        apple.cs = self.cs as u64;
        apple.gs = self.gs as u64;
        apple.fs = self.fs as u64;
    }
}

/// A Darwin user context, as plain values: the signal stack (base, size, flags), the machine
/// context and the signal mask.
#[derive(Debug, Clone, Copy)]
pub struct DarwinUContext {
    pub uc_stack: (u64, u64, i32),
    pub uc_mcontext: DarwinMContext,
    pub uc_sigmask: u32,
}

/// The user context that a Linux signal handler receives; the link is an address, zero for
/// none.
#[derive(Debug, Clone, Copy)]
pub struct UContext {
    pub uc_flags: UContextFlags,
    pub uc_link: u64,
    pub uc_stack: SigAltStack,
    pub uc_mcontext: MContext,
    pub uc_sigmask: KernelSigSet,
}

impl UContext {
    /// The Linux context of a Darwin one, with no flags and no link.
    pub fn from_apple(apple: &DarwinUContext) -> (r: Self)
        ensures
            r.uc_flags.0 == 0,
            r.uc_link == 0,
            r.uc_stack == (SigAltStack {
                ss_sp: apple.uc_stack.0,
                ss_flags: flags_from_apple(SigAltStack::table(), apple.uc_stack.2 as u64) as i32,
                ss_size: apple.uc_stack.1,
            }),
            registers_match(r.uc_mcontext, apple.uc_mcontext),
            r.uc_mcontext.cs == apple.uc_mcontext.cs as u16,
            r.uc_mcontext.err == apple.uc_mcontext.err as u64,
            r.uc_mcontext.trapno == apple.uc_mcontext.trapno as u64,
            r.uc_sigmask.bits() == crate::signal::linux_sigset_upto(apple.uc_sigmask, 31),
    {
        UContext {
            uc_flags: UContextFlags(0),
            uc_link: 0,
            uc_stack: SigAltStack::from_apple(apple.uc_stack.0, apple.uc_stack.1, apple.uc_stack.2),
            uc_mcontext: MContext::from_apple(&apple.uc_mcontext),
            uc_sigmask: KernelSigSet::from_apple(apple.uc_sigmask),
        }
    }
}

} // verus!
