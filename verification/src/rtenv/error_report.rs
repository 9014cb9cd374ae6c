//! The report of a failing thread's registers, written to the standard error by the caller.

use vstd::prelude::*;

use crate::text::{hex_fixed, push_hex};
use crate::ucontext::DarwinMContext;

verus! {

/// The exit status of a process that fails at once.
pub const FAST_FAIL_STATUS: i32 = 101;

/// One register in the report: its label, its value in sixteen hexadecimal digits, and a comma.
pub open spec fn field(label: Seq<char>, v: u64) -> Seq<char> {
    label + hex_fixed(v as nat, 16) + seq![',']
}

/// The report of the registers of `ctx`: six lines of labelled values.
pub open spec fn register_report(ctx: DarwinMContext) -> Seq<char> {
    field("  rax=0x"@, ctx.rax) + field(" rbx=0x"@, ctx.rbx) + field(" rcx=0x"@, ctx.rcx) + field(
        " rdx=0x"@,
        ctx.rdx,
    ) + "\n"@ + field("   r8=0x"@, ctx.r8) + field("  r9=0x"@, ctx.r9) + field(" r10=0x"@, ctx.r10)
        + field(" r11=0x"@, ctx.r11) + "\n"@ + field("  r12=0x"@, ctx.r12) + field(
        " r13=0x"@,
        ctx.r13,
    ) + field(" r14=0x"@, ctx.r14) + field(" r15=0x"@, ctx.r15) + "\n"@ + field(
        "  rip=0x"@,
        ctx.rip,
    ) + field(" rsp=0x"@, ctx.rsp) + field(" rbp=0x"@, ctx.rbp) + field(" rsi=0x"@, ctx.rsi)
        + "\n"@ + field("  rdi=0x"@, ctx.rdi) + "\n"@ + field("  rfl=0x"@, ctx.rflags) + field(
        "  cs=0x"@,
        ctx.cs,
    ) + field("  fs=0x"@, ctx.fs) + field("  gs=0x"@, ctx.gs) + "\n"@
}

fn push_field(out: &mut String, label: &str, v: u64)
    ensures
        final(out)@ == old(out)@ + field(label@, v),
{
    out.append(label);
    push_hex(out, v, 16);
    out.append(",");
    proof {
        reveal_strlit(",");
        assert(final(out)@ =~= old(out)@ + field(label@, v));
    }
}

/// The text that reports the registers of `ctx`.
pub fn print_registers(ctx: &DarwinMContext) -> (r: String)
    ensures
        r@ == register_report(*ctx),
{
    let mut out = String::new();
    push_field(&mut out, "  rax=0x", ctx.rax);
    push_field(&mut out, " rbx=0x", ctx.rbx);
    push_field(&mut out, " rcx=0x", ctx.rcx);
    push_field(&mut out, " rdx=0x", ctx.rdx);
    out.append("\n");
    push_field(&mut out, "   r8=0x", ctx.r8);
    push_field(&mut out, "  r9=0x", ctx.r9);
    push_field(&mut out, " r10=0x", ctx.r10);
    push_field(&mut out, " r11=0x", ctx.r11);
    out.append("\n");
    push_field(&mut out, "  r12=0x", ctx.r12);
    push_field(&mut out, " r13=0x", ctx.r13);
    push_field(&mut out, " r14=0x", ctx.r14);
    push_field(&mut out, " r15=0x", ctx.r15);
    out.append("\n");
    push_field(&mut out, "  rip=0x", ctx.rip);
    push_field(&mut out, " rsp=0x", ctx.rsp);
    push_field(&mut out, " rbp=0x", ctx.rbp);
    push_field(&mut out, " rsi=0x", ctx.rsi);
    out.append("\n");
    push_field(&mut out, "  rdi=0x", ctx.rdi);
    out.append("\n");
    push_field(&mut out, "  rfl=0x", ctx.rflags);
    push_field(&mut out, "  cs=0x", ctx.cs);
    push_field(&mut out, "  fs=0x", ctx.fs);
    push_field(&mut out, "  gs=0x", ctx.gs);
    out.append("\n");
    assert(out@ =~= register_report(*ctx));
    out
}

} // verus!
