//! Signals: numbers, handlers, actions and the kernel's 64-bit signal set.

use crate::error::LxError;
use crate::flags::{apple_disjoint, convert_from_apple, flags_from_apple, lemma_from_apple_entry};
use crate::{FromApple, ToApple};
use vstd::prelude::*;

verus! {

/// Whether bit `sig - 1` of `bits` is set, for a signal number `sig` in `1..=64`.
pub open spec fn sigset_has(bits: u64, sig: u32) -> bool {
    1 <= sig <= 64 && bits & (1u64 << ((sig - 1) as u64)) != 0
}

/// The bit of signal `sig`.
pub open spec fn sig_bit(sig: u32) -> u64 {
    1u64 << ((sig - 1) as u64)
}

proof fn lemma_bit_set(a: u64, x: u64, y: u64)
    requires
        x < 64,
        y < 64,
    ensures
        ((a | (1u64 << x)) & (1u64 << y) != 0) == (x == y || a & (1u64 << y) != 0),
{
    assert(((a | (1u64 << x)) & (1u64 << y) != 0) == (x == y || a & (1u64 << y) != 0))
        by (bit_vector)
        requires
            x < 64,
            y < 64,
    ;
}

proof fn lemma_bit_clear(a: u64, x: u64, y: u64)
    requires
        x < 64,
        y < 64,
    ensures
        ((a & !(1u64 << x)) & (1u64 << y) != 0) == (x != y && a & (1u64 << y) != 0),
{
    assert(((a & !(1u64 << x)) & (1u64 << y) != 0) == (x != y && a & (1u64 << y) != 0))
        by (bit_vector)
        requires
            x < 64,
            y < 64,
    ;
}

proof fn lemma_empty_has_none(y: u64)
    requires
        y < 64,
    ensures
        0u64 & (1u64 << y) == 0,
{
    assert(0u64 & (1u64 << y) == 0) by (bit_vector);
}

/// A Linux signal number.
#[derive(Debug, Clone, Copy, PartialEq, Eq, Structural)]
pub struct SigNum(pub u32);

impl SigNum {
    pub const SIGHUP: u32 = 1;
    pub const SIGINT: u32 = 2;
    pub const SIGQUIT: u32 = 3;
    pub const SIGILL: u32 = 4;
    pub const SIGTRAP: u32 = 5;
    pub const SIGABRT: u32 = 6;
    pub const SIGBUS: u32 = 7;
    pub const SIGFPE: u32 = 8;
    pub const SIGKILL: u32 = 9;
    pub const SIGUSR1: u32 = 10;
    pub const SIGSEGV: u32 = 11;
    pub const SIGUSR2: u32 = 12;
    pub const SIGPIPE: u32 = 13;
    pub const SIGALRM: u32 = 14;
    pub const SIGTERM: u32 = 15;
    pub const SIGCHLD: u32 = 17;
    pub const SIGCONT: u32 = 18;
    pub const SIGSTOP: u32 = 19;
    pub const SIGTSTP: u32 = 20;
    pub const SIGTTIN: u32 = 21;
    pub const SIGTTOU: u32 = 22;
    pub const SIGURG: u32 = 23;
    pub const SIGXCPU: u32 = 24;
    pub const SIGXFSZ: u32 = 25;
    pub const SIGVTALRM: u32 = 26;
    pub const SIGPROF: u32 = 27;
    pub const SIGWINCH: u32 = 28;
    pub const SIGSYS: u32 = 31;
    pub const SIGSTKFLT: u32 = 16;
    pub const SIGPWR: u32 = 30;
    pub const SIGRTMIN: u32 = 32;
    pub const SIGRTMAX: u32 = 64;
    pub const SIGPOLL: u32 = 29;

    /// The Darwin value that the Linux value `linux` stands for, if Darwin has one.
    pub open spec fn apple_of(linux: u32) -> Option<i32> {
        match linux {
            1 => Some(1i32),
            2 => Some(2i32),
            3 => Some(3i32),
            4 => Some(4i32),
            5 => Some(5i32),
            6 => Some(6i32),
            7 => Some(10i32),
            8 => Some(8i32),
            9 => Some(9i32),
            10 => Some(30i32),
            11 => Some(11i32),
            12 => Some(31i32),
            13 => Some(13i32),
            14 => Some(14i32),
            15 => Some(15i32),
            17 => Some(20i32),
            18 => Some(19i32),
            19 => Some(17i32),
            20 => Some(18i32),
            21 => Some(21i32),
            22 => Some(22i32),
            23 => Some(16i32),
            24 => Some(24i32),
            25 => Some(25i32),
            26 => Some(26i32),
            27 => Some(27i32),
            28 => Some(28i32),
            31 => Some(12i32),
            29 => Some(23i32),
            _ => None,
        }
    }

    /// The Linux value that the Darwin value `apple` is read as, if any.
    pub open spec fn linux_of(apple: i32) -> Option<u32> {
        match apple {
            1 => Some(1u32),
            2 => Some(2u32),
            3 => Some(3u32),
            4 => Some(4u32),
            5 => Some(5u32),
            6 => Some(6u32),
            10 => Some(7u32),
            8 => Some(8u32),
            9 => Some(9u32),
            30 => Some(10u32),
            11 => Some(11u32),
            31 => Some(12u32),
            13 => Some(13u32),
            14 => Some(14u32),
            15 => Some(15u32),
            20 => Some(17u32),
            19 => Some(18u32),
            17 => Some(19u32),
            18 => Some(20u32),
            21 => Some(21u32),
            22 => Some(22u32),
            16 => Some(23u32),
            24 => Some(24u32),
            25 => Some(25u32),
            26 => Some(26u32),
            27 => Some(27u32),
            28 => Some(28u32),
            12 => Some(31u32),
            23 => Some(29u32),
            _ => None,
        }
    }

}

impl FromApple for SigNum {
    type Apple = i32;

    fn from_apple(apple: i32) -> (r: Result<Self, LxError>)
        ensures
            r == (match Self::linux_of(apple) {
                Some(x) => Ok(SigNum(x)),
                None => Err(LxError(LxError::EINVAL)),
            }),
    {
        match apple {
            1 => Ok(SigNum(Self::SIGHUP)),
            2 => Ok(SigNum(Self::SIGINT)),
            3 => Ok(SigNum(Self::SIGQUIT)),
            4 => Ok(SigNum(Self::SIGILL)),
            5 => Ok(SigNum(Self::SIGTRAP)),
            6 => Ok(SigNum(Self::SIGABRT)),
            10 => Ok(SigNum(Self::SIGBUS)),
            8 => Ok(SigNum(Self::SIGFPE)),
            9 => Ok(SigNum(Self::SIGKILL)),
            30 => Ok(SigNum(Self::SIGUSR1)),
            11 => Ok(SigNum(Self::SIGSEGV)),
            31 => Ok(SigNum(Self::SIGUSR2)),
            13 => Ok(SigNum(Self::SIGPIPE)),
            14 => Ok(SigNum(Self::SIGALRM)),
            15 => Ok(SigNum(Self::SIGTERM)),
            20 => Ok(SigNum(Self::SIGCHLD)),
            19 => Ok(SigNum(Self::SIGCONT)),
            17 => Ok(SigNum(Self::SIGSTOP)),
            18 => Ok(SigNum(Self::SIGTSTP)),
            21 => Ok(SigNum(Self::SIGTTIN)),
            22 => Ok(SigNum(Self::SIGTTOU)),
            16 => Ok(SigNum(Self::SIGURG)),
            24 => Ok(SigNum(Self::SIGXCPU)),
            25 => Ok(SigNum(Self::SIGXFSZ)),
            26 => Ok(SigNum(Self::SIGVTALRM)),
            27 => Ok(SigNum(Self::SIGPROF)),
            28 => Ok(SigNum(Self::SIGWINCH)),
            12 => Ok(SigNum(Self::SIGSYS)),
            23 => Ok(SigNum(Self::SIGPOLL)),
            _ => Err(LxError(LxError::EINVAL)),
        }
    }
}

impl ToApple for SigNum {
    type Apple = i32;

    fn to_apple(self) -> (r: Result<i32, LxError>)
        ensures
            r == (match Self::apple_of(self.0) {
                Some(a) => Ok(a),
                None => Err(LxError(LxError::EINVAL)),
            }),
    {
        match self.0 {
            1 => Ok(1),
            2 => Ok(2),
            3 => Ok(3),
            4 => Ok(4),
            5 => Ok(5),
            6 => Ok(6),
            7 => Ok(10),
            8 => Ok(8),
            9 => Ok(9),
            10 => Ok(30),
            11 => Ok(11),
            12 => Ok(31),
            13 => Ok(13),
            14 => Ok(14),
            15 => Ok(15),
            17 => Ok(20),
            18 => Ok(19),
            19 => Ok(17),
            20 => Ok(18),
            21 => Ok(21),
            22 => Ok(22),
            23 => Ok(16),
            24 => Ok(24),
            25 => Ok(25),
            26 => Ok(26),
            27 => Ok(27),
            28 => Ok(28),
            31 => Ok(12),
            29 => Ok(23),
            _ => Err(LxError(LxError::EINVAL)),
        }
    }
}

/// How a signal mask changes.
#[derive(Debug, Clone, Copy, PartialEq, Eq, Structural)]
pub struct MaskHowto(pub u32);

impl MaskHowto {
    pub const SIG_BLOCK: u32 = 0;
    pub const SIG_UNBLOCK: u32 = 1;
    pub const SIG_SETMASK: u32 = 2;

    /// The Darwin value that the Linux value `linux` stands for, if Darwin has one.
    pub open spec fn apple_of(linux: u32) -> Option<i32> {
        match linux {
            0 => Some(1i32),
            1 => Some(2i32),
            2 => Some(3i32),
            _ => None,
        }
    }

    /// The Linux value that the Darwin value `apple` is read as, if any.
    pub open spec fn linux_of(apple: i32) -> Option<u32> {
        match apple {
            1 => Some(0u32),
            2 => Some(1u32),
            3 => Some(2u32),
            _ => None,
        }
    }

}

impl FromApple for MaskHowto {
    type Apple = i32;

    fn from_apple(apple: i32) -> (r: Result<Self, LxError>)
        ensures
            r == (match Self::linux_of(apple) {
                Some(x) => Ok(MaskHowto(x)),
                None => Err(LxError(LxError::EINVAL)),
            }),
    {
        match apple {
            1 => Ok(MaskHowto(Self::SIG_BLOCK)),
            2 => Ok(MaskHowto(Self::SIG_UNBLOCK)),
            3 => Ok(MaskHowto(Self::SIG_SETMASK)),
            _ => Err(LxError(LxError::EINVAL)),
        }
    }
}

impl ToApple for MaskHowto {
    type Apple = i32;

    fn to_apple(self) -> (r: Result<i32, LxError>)
        ensures
            r == (match Self::apple_of(self.0) {
                Some(a) => Ok(a),
                None => Err(LxError(LxError::EINVAL)),
            }),
    {
        match self.0 {
            0 => Ok(1),
            1 => Ok(2),
            2 => Ok(3),
            _ => Err(LxError(LxError::EINVAL)),
        }
    }
}


impl SigNum {
    /// The number of Linux signals.
    pub const _NSIG: u32 = 64;
    /// The signal reported for a termination by a signal that Linux does not know.
    pub const SIGUNUSED: u32 = 31;
}

/// A signal handler address, or one of the special values.
#[derive(Debug, Clone, Copy, PartialEq, Eq, Structural)]
pub struct SigHandler(pub usize);

impl SigHandler {
    pub const SIG_DFL: usize = 0;
    pub const SIG_IGN: usize = 1;
    pub const SIG_HOLD: usize = 2;
}

/// Flags of a signal action.
#[derive(Debug, Clone, Copy, PartialEq, Eq, Structural)]
pub struct SigActionFlags(pub u64);

impl SigActionFlags {
    pub const SA_NOCLDSTOP: u64 = 0x1;
    pub const SA_NOCLDWAIT: u64 = 0x2;
    pub const SA_SIGINFO: u64 = 0x4;
    pub const SA_UNSUPPORTED: u64 = 0x400;
    pub const SA_EXPOSE_TAGBITS: u64 = 0x800;
    pub const SA_RESTORER: u64 = 0x4000000;
    pub const SA_ONSTACK: u64 = 0x8000000;
    pub const SA_RESTART: u64 = 0x10000000;
    pub const SA_NODEFER: u64 = 0x40000000;
    pub const SA_RESETHAND: u64 = 0x80000000;

    /// Whether every bit of `flag` is set.
    pub open spec fn has(self, flag: u64) -> bool {
        self.0 & flag == flag
    }

    /// The empty set of flags.
    pub fn empty() -> (r: Self)
        ensures
            r.0 == 0,
    {
        SigActionFlags(0)
    }

    /// Tests whether every bit of `flag` is set.
    pub fn contains(self, flag: u64) -> (r: bool)
        ensures
            r == self.has(flag),
    {
        self.0 & flag == flag
    }

    /// The Darwin `sa_flags` of an action with these flags. Darwin always gets `SA_SIGINFO`, since
    /// handlers are installed with the three-argument signature; flags without a Darwin
    /// counterpart are dropped.
    pub fn to_apple(self) -> (r: i32)
        ensures
            r == (if self.has(Self::SA_NOCLDSTOP) { 0x0008i32 } else { 0 }) | (if self.has(
                Self::SA_NOCLDWAIT,
            ) {
                0x0020i32
            } else {
                0
            }) | 0x0040i32 | (if self.has(Self::SA_ONSTACK) { 0x0001i32 } else { 0 }) | (if self.has(
                Self::SA_RESTART,
            ) {
                0x0002i32
            } else {
                0
            }) | (if self.has(Self::SA_NODEFER) { 0x0010i32 } else { 0 }) | (if self.has(
                Self::SA_RESETHAND,
            ) {
                0x0004i32
            } else {
                0
            }),
    {
        let nocldstop: i32 = if self.contains(Self::SA_NOCLDSTOP) { 0x0008 } else { 0 };
        let nocldwait: i32 = if self.contains(Self::SA_NOCLDWAIT) { 0x0020 } else { 0 };
        let onstack: i32 = if self.contains(Self::SA_ONSTACK) { 0x0001 } else { 0 };
        let restart: i32 = if self.contains(Self::SA_RESTART) { 0x0002 } else { 0 };
        let nodefer: i32 = if self.contains(Self::SA_NODEFER) { 0x0010 } else { 0 };
        let resethand: i32 = if self.contains(Self::SA_RESETHAND) { 0x0004 } else { 0 };
        nocldstop | nocldwait | 0x0040 | onstack | restart | nodefer | resethand
    }
}

/// The kernel's signal set: bit `n - 1` stands for signal `n`.
#[derive(Debug, Clone, Copy, PartialEq, Eq, Structural)]
pub struct KernelSigSet(pub u64);

impl KernelSigSet {
    /// The bits of the set.
    pub open spec fn bits(self) -> u64 {
        self.0
    }

    /// Whether signal `sig` is in the set.
    pub open spec fn has(self, sig: u32) -> bool {
        sigset_has(self.0, sig)
    }

    /// The empty set.
    pub fn empty() -> (r: Self)
        ensures
            r.bits() == 0,
            forall|sig: u32| !r.has(sig),
    {
        proof {
            assert forall|sig: u32| !sigset_has(0, sig) by {
                if 1 <= sig <= 64 {
                    lemma_empty_has_none((sig - 1) as u64);
                }
            }
        }
        KernelSigSet(0)
    }

    /// The set with exactly the given bits.
    pub fn from_bits(bits: u64) -> (r: Self)
        ensures
            r.bits() == bits,
    {
        KernelSigSet(bits)
    }

    /// Adds signal `sig` to the set.
    pub fn add(&mut self, sig: SigNum)
        requires
            1 <= sig.0 <= 64,
        ensures
            final(self).bits() == old(self).bits() | sig_bit(sig.0),
            forall|s: u32| final(self).has(s) == (s == sig.0 || old(self).has(s)),
    {
        let n = sig.0 - 1;
        self.0 = self.0 | (1u64 << (n as u64));
        proof {
            assert forall|s: u32| #[trigger] self.has(s) == (s == sig.0 || old(self).has(s)) by {
                if 1 <= s <= 64 {
                    lemma_bit_set(old(self).0, n as u64, (s - 1) as u64);
                }
            }
        }
    }

    /// Removes signal `sig` from the set.
    pub fn del(&mut self, sig: SigNum)
        requires
            1 <= sig.0 <= 64,
        ensures
            final(self).bits() == old(self).bits() & !sig_bit(sig.0),
            forall|s: u32| final(self).has(s) == (s != sig.0 && old(self).has(s)),
    {
        let n = sig.0 - 1;
        self.0 = self.0 & !(1u64 << (n as u64));
        proof {
            assert forall|s: u32| #[trigger] self.has(s) == (s != sig.0 && old(self).has(s)) by {
                if 1 <= s <= 64 {
                    lemma_bit_clear(old(self).0, n as u64, (s - 1) as u64);
                }
            }
        }
    }

    /// Tests whether signal `sig` is in the set.
    pub fn get(&self, sig: SigNum) -> (r: bool)
        requires
            1 <= sig.0 <= 64,
        ensures
            r == self.has(sig.0),
    {
        let n = sig.0 - 1;
        (self.0 & (1u64 << (n as u64))) != 0
    }

    /// The set of the given signals.
    pub fn from_iter(sigs: &[SigNum]) -> (r: Self)
        requires
            forall|i: int| 0 <= i < sigs@.len() ==> 1 <= (#[trigger] sigs@[i]).0 <= 64,
        ensures
            forall|s: u32| r.has(s) == exists|i: int| 0 <= i < sigs@.len() && sigs@[i].0 == s,
    {
        let mut obj = Self::empty();
        let mut i: usize = 0;
        while i < sigs.len()
            invariant
                i <= sigs@.len(),
                forall|j: int| 0 <= j < sigs@.len() ==> 1 <= (#[trigger] sigs@[j]).0 <= 64,
                forall|s: u32| obj.has(s) == exists|j: int| 0 <= j < i && sigs@[j].0 == s,
            decreases sigs@.len() - i,
        {
            let ghost before = obj;
            obj.add(sigs[i]);
            assert forall|s: u32| obj.has(s) == exists|j: int| 0 <= j < i + 1 && sigs@[j].0 == s by {
                if s == sigs@[i as int].0 {
                    assert(sigs@[i as int].0 == s);
                } else if before.has(s) {
                    let j = choose|j: int| 0 <= j < i && sigs@[j].0 == s;
                    assert(0 <= j < i + 1 && sigs@[j].0 == s);
                } else {
                    if exists|j: int| 0 <= j < i + 1 && sigs@[j].0 == s {
                        let j = choose|j: int| 0 <= j < i + 1 && sigs@[j].0 == s;
                        assert(j < i);
                    }
                }
            }
            i = i + 1;
        }
        obj
    }

    /// An iterator over the signals of the set, in increasing order.
    pub fn iter(self) -> (r: KernelSigSetIter)
        ensures
            r.sigset == self,
            r.pos == 0,
    {
        KernelSigSetIter { sigset: self, pos: 0 }
    }

    /// The signals of the set, in increasing order: what a whole iteration yields.
    pub fn signals(self) -> (r: Vec<SigNum>)
        ensures
            r@ == members_from(self, 0),
            forall|i: int| 0 <= i < r@.len() ==> self.has(#[trigger] r@[i].0),
            forall|i: int, j: int| 0 <= i < j < r@.len() ==> r@[i].0 < r@[j].0,
            forall|s: u32| self.has(s) ==> exists|i: int| 0 <= i < r@.len() && r@[i].0 == s,
    {
        let mut it = self.iter();
        let mut r: Vec<SigNum> = Vec::new();
        loop
            invariant
                it.sigset == self,
                it.pos <= 64,
                forall|i: int| 0 <= i < r@.len() ==> self.has(#[trigger] r@[i].0),
                forall|i: int| 0 <= i < r@.len() ==> (#[trigger] r@[i].0) <= it.pos,
                forall|i: int, j: int| 0 <= i < j < r@.len() ==> r@[i].0 < r@[j].0,
                forall|s: u32|
                    s <= it.pos && self.has(s) ==> exists|i: int| 0 <= i < r@.len() && r@[i].0 == s,
                r@ + members_from(self, it.pos) == members_from(self, 0),
            decreases 64 - it.pos,
        {
            let ghost before = it.pos;
            let ghost old_seq = r@;
            match it.next() {
                Some(sig) => {
                    let ghost old_r = r@;
                    r.push(sig);
                    assert(r@ + members_from(self, it.pos) =~= old_seq + (seq![sig] + members_from(
                        self,
                        it.pos,
                    )));
                    assert forall|s: u32| s <= it.pos && self.has(s) implies exists|i: int|
                        0 <= i < r@.len() && r@[i].0 == s by {
                        if s == sig.0 {
                            assert(r@[old_r.len() as int].0 == s);
                        } else {
                            assert(s <= before);
                            let i = choose|i: int| 0 <= i < old_r.len() && old_r[i].0 == s;
                            assert(r@[i].0 == s);
                        }
                    }
                },
                None => {
                    assert(r@ =~= r@ + Seq::<SigNum>::empty());
                    return r;
                },
            }
        }
    }

    /// The set that a Darwin `sigset_t` stands for: each Darwin signal `n` in `1..32` whose bit
    /// `n - 1` is set and that has a Linux counterpart sets that counterpart's bit.
    pub fn from_apple(sigset: u32) -> (r: Self)
        ensures
            r.bits() == linux_sigset_upto(sigset, 31),
    {
        let mut bits: u64 = 0;
        let mut k: u32 = 0;
        while k < 31
            invariant
                k <= 31,
                bits == linux_sigset_upto(sigset, k),
            decreases 31 - k,
        {
            if sigset & (1u32 << k) != 0 {
                match SigNum::from_apple((k + 1) as i32) {
                    Ok(sig) => {
                        if 1 <= sig.0 && sig.0 <= 64 {
                            bits = bits | (1u64 << ((sig.0 - 1) as u64));
                        }
                    },
                    Err(_) => {},
                }
            }
            k = k + 1;
        }
        KernelSigSet(bits)
    }

    /// The Darwin `sigset_t` of the set: each signal with a Darwin counterpart other than
    /// `SIGSEGV` and `SIGSYS` sets that counterpart's bit.
    pub fn to_apple(self) -> (r: u32)
        ensures
            r == apple_sigset_upto(self.0, 64),
    {
        let mut apple: u32 = 0;
        let mut k: u32 = 0;
        while k < 64
            invariant
                k <= 64,
                apple == apple_sigset_upto(self.0, k),
            decreases 64 - k,
        {
            let sig = SigNum(k + 1);
            if self.get(sig) {
                match sig.to_apple() {
                    Ok(a) => {
                        if a != 11 && a != 12 {
                            apple = apple | (1u32 << ((a - 1) as u32));
                        }
                    },
                    Err(_) => {},
                }
            }
            k = k + 1;
        }
        apple
    }
}

/// The Darwin `sigset_t` bits contributed by Linux signals `1..=k` of `bits`.
pub open spec fn apple_sigset_upto(bits: u64, k: u32) -> u32
    decreases k,
{
    if k == 0 {
        0
    } else {
        let prev = apple_sigset_upto(bits, (k - 1) as u32);
        if sigset_has(bits, k) {
            match SigNum::apple_of(k) {
                Some(a) => if a != 11 && a != 12 {
                    prev | (1u32 << ((a - 1) as u32))
                } else {
                    prev
                },
                None => prev,
            }
        } else {
            prev
        }
    }
}

/// The Linux set bits contributed by Darwin signals `1..=k` of the Darwin `sigset_t` `apple`.
pub open spec fn linux_sigset_upto(apple: u32, k: u32) -> u64
    decreases k,
{
    if k == 0 {
        0
    } else {
        let prev = linux_sigset_upto(apple, (k - 1) as u32);
        if apple & (1u32 << ((k - 1) as u32)) != 0 {
            match SigNum::linux_of(k as i32) {
                Some(l) => if 1 <= l <= 64 {
                    prev | (1u64 << ((l - 1) as u64))
                } else {
                    prev
                },
                None => prev,
            }
        } else {
            prev
        }
    }
}

/// The signals of `set` above `pos`, in increasing order: what an iterator at `pos` yields.
pub open spec fn members_from(set: KernelSigSet, pos: u32) -> Seq<SigNum>
    decreases 64 - pos,
{
    if pos >= 64 {
        Seq::empty()
    } else if set.has((pos + 1) as u32) {
        seq![SigNum((pos + 1) as u32)] + members_from(set, (pos + 1) as u32)
    } else {
        members_from(set, (pos + 1) as u32)
    }
}

/// Skipping positions that hold no signal of the set changes nothing of what is left.
proof fn lemma_members_skip(set: KernelSigSet, a: u32, b: u32)
    requires
        a <= b <= 64,
        forall|s: u32| a < s <= b ==> !set.has(s),
    ensures
        members_from(set, a) == members_from(set, b),
    decreases b - a,
{
    if a < b {
        lemma_members_skip(set, (a + 1) as u32, b);
    }
}

/// The signals that an iteration from `pos` yields are exactly the signals of the set above
/// `pos`, each once and in strictly increasing order.
pub proof fn lemma_members_from(set: KernelSigSet, pos: u32)
    requires
        pos <= 64,
    ensures
        forall|i: int|
            0 <= i < members_from(set, pos).len() ==> pos < (#[trigger] members_from(set, pos)[i]).0
                <= 64 && set.has(members_from(set, pos)[i].0),
        forall|i: int, j: int|
            0 <= i < j < members_from(set, pos).len() ==> (#[trigger] members_from(set, pos)[i]).0
                < (#[trigger] members_from(set, pos)[j]).0,
        forall|s: u32|
            pos < s <= 64 && set.has(s) ==> exists|i: int|
                0 <= i < members_from(set, pos).len() && (#[trigger] members_from(set, pos)[i]).0
                    == s,
    decreases 64 - pos,
{
    if pos < 64 {
        let next = (pos + 1) as u32;
        lemma_members_from(set, next);
        let rest = members_from(set, next);
        let m = members_from(set, pos);
        if set.has(next) {
            assert(m == seq![SigNum(next)] + rest);
            assert forall|i: int| 0 <= i < m.len() implies pos < (#[trigger] m[i]).0 <= 64 && set.has(
                m[i].0,
            ) by {
                if i > 0 {
                    assert(m[i] == rest[i - 1]);
                }
            }
            assert forall|i: int, j: int| 0 <= i < j < m.len() implies (#[trigger] m[i]).0
                < (#[trigger] m[j]).0 by {
                assert(m[j] == rest[j - 1]);
                if i > 0 {
                    assert(m[i] == rest[i - 1]);
                }
            }
            assert forall|s: u32| pos < s <= 64 && set.has(s) implies exists|i: int|
                0 <= i < m.len() && (#[trigger] m[i]).0 == s by {
                if s == next {
                    assert(m[0].0 == s);
                } else {
                    let k = choose|k: int| 0 <= k < rest.len() && (#[trigger] rest[k]).0 == s;
                    assert(m[k + 1] == rest[k]);
                }
            }
        } else {
            assert(m == rest);
        }
    }
}

proof fn lemma_apple_signal_range(s: u32)
    ensures
        SigNum::apple_of(s) matches Some(a) ==> 1 <= a <= 31,
{
}

proof fn lemma_apple_sigset_keeps(bits: u64, k: u32, s: u32)
    requires
        1 <= s <= k <= 64,
        sigset_has(bits, s),
        SigNum::apple_of(s) matches Some(a) && a != 11 && a != 12,
    ensures
        apple_sigset_upto(bits, k) & (1u32 << ((SigNum::apple_of(s)->Some_0 - 1) as u32)) != 0,
    decreases k,
{
    lemma_apple_signal_range(s);
    let a = SigNum::apple_of(s)->Some_0;
    let m = 1u32 << ((a - 1) as u32);
    let sh = (a - 1) as u32;
    let prev = apple_sigset_upto(bits, (k - 1) as u32);
    if k == s {
        assert((prev | m) & m != 0) by (bit_vector)
            requires
                m == 1u32 << sh,
                sh < 31,
        ;
    } else {
        lemma_apple_sigset_keeps(bits, (k - 1) as u32, s);
        let cur = apple_sigset_upto(bits, k);
        assert(cur == prev || exists|x: u32| cur == prev | x);
        if cur != prev {
            let x = choose|x: u32| cur == prev | x;
            assert((prev | x) & m != 0) by (bit_vector)
                requires
                    prev & m != 0,
            ;
        }
    }
}

proof fn lemma_apple_sigset_only(bits: u64, k: u32, b: u32)
    requires
        k <= 64,
        b < 32,
        apple_sigset_upto(bits, k) & (1u32 << b) != 0,
    ensures
        exists|s: u32|
            1 <= s <= k && sigset_has(bits, s) && #[trigger] SigNum::apple_of(s) == Some(
                (b + 1) as i32,
            ) && b + 1 != 11 && b + 1 != 12,
    decreases k,
{
    if k == 0 {
        assert(0u32 & (1u32 << b) == 0) by (bit_vector);
    } else {
        let prev = apple_sigset_upto(bits, (k - 1) as u32);
        let cur = apple_sigset_upto(bits, k);
        if prev & (1u32 << b) != 0 {
            lemma_apple_sigset_only(bits, (k - 1) as u32, b);
            let s = choose|s: u32|
                1 <= s <= k - 1 && sigset_has(bits, s) && #[trigger] SigNum::apple_of(s) == Some(
                    (b + 1) as i32,
                ) && b + 1 != 11 && b + 1 != 12;
            assert(SigNum::apple_of(s) == Some((b + 1) as i32));
        } else {
            lemma_apple_signal_range(k);
            let a = SigNum::apple_of(k)->Some_0;
            let sh = (a - 1) as u32;
            if sigset_has(bits, k) && SigNum::apple_of(k) is Some && a != 11 && a != 12 {
                assert(cur == prev | (1u32 << sh));
                assert(sh == b) by (bit_vector)
                    requires
                        prev & (1u32 << b) == 0,
                        (prev | (1u32 << sh)) & (1u32 << b) != 0,
                        sh < 31,
                        b < 32,
                ;
                assert(SigNum::apple_of(k) == Some((b + 1) as i32));
            } else {
                assert(cur == prev);
            }
        }
    }
}

/// Every bit of the Darwin mask of a set comes from a Linux signal of the set: the signal whose
/// Darwin number it is, neither `SIGSEGV` nor `SIGSYS`.
pub proof fn lemma_to_apple_only_signals(set: KernelSigSet, b: u32)
    requires
        b < 32,
        apple_sigset_upto(set.0, 64) & (1u32 << b) != 0,
    ensures
        exists|s: u32|
            set.has(s) && #[trigger] SigNum::apple_of(s) == Some((b + 1) as i32) && b + 1 != 11 && b
                + 1 != 12,
{
    lemma_apple_sigset_only(set.0, 64, b);
}

/// Every Linux signal of a set that Darwin has, other than `SIGSEGV` and `SIGSYS` (which are
/// never blocked), is in the Darwin mask of the set: its Darwin number's bit is set.
pub proof fn lemma_to_apple_keeps_signals(set: KernelSigSet, s: u32)
    requires
        set.has(s),
        SigNum::apple_of(s) matches Some(a) && a != 11 && a != 12,
    ensures
        apple_sigset_upto(set.0, 64) & (1u32 << ((SigNum::apple_of(s)->Some_0 - 1) as u32)) != 0,
{
    lemma_apple_sigset_keeps(set.0, 64, s);
}

/// An iterator over the signals of a [`KernelSigSet`].
#[derive(Debug, Clone, Copy)]
pub struct KernelSigSetIter {
    pub sigset: KernelSigSet,
    pub pos: u32,
}

impl KernelSigSetIter {
    /// The next signal of the set above the position: the smallest one, after which the position
    /// moves to it; `None` once none is left, the position then at the end.
    pub fn next(&mut self) -> (r: Option<SigNum>)
        requires
            old(self).pos <= 64,
        ensures
            final(self).sigset == old(self).sigset,
            final(self).pos <= 64,
            match r {
                Some(sig) => {
                    &&& old(self).pos < sig.0 <= 64
                    &&& final(self).pos == sig.0
                    &&& old(self).sigset.has(sig.0)
                    &&& forall|s: u32| old(self).pos < s < sig.0 ==> !old(self).sigset.has(s)
                },
                None => {
                    &&& final(self).pos == 64
                    &&& forall|s: u32| old(self).pos < s ==> !old(self).sigset.has(s)
                },
            },
            members_from(old(self).sigset, old(self).pos) == match r {
                Some(sig) => seq![sig] + members_from(final(self).sigset, final(self).pos),
                None => Seq::<SigNum>::empty(),
            },
    {
        let ghost start = self.pos;
        while self.pos <= SigNum::_NSIG - 1
            invariant
                self.sigset == old(self).sigset,
                start == old(self).pos,
                start <= self.pos <= 64,
                forall|s: u32| start < s <= self.pos ==> !self.sigset.has(s),
            decreases 64 - self.pos,
        {
            if self.sigset.get(SigNum(self.pos + 1)) {
                proof {
                    lemma_members_skip(self.sigset, start, self.pos);
                }
                self.pos = self.pos + 1;
                return Some(SigNum(self.pos));
            }
            self.pos = self.pos + 1;
        }
        proof {
            lemma_members_skip(self.sigset, start, 64);
        }
        None
    }
}

/// A signal action as the kernel stores it.
#[derive(Debug, Clone, Copy)]
pub struct SigAction {
    pub handler: SigHandler,
    pub flags: SigActionFlags,
    pub restorer: usize,
    pub mask: KernelSigSet,
}

impl SigAction {
    /// The default action: default handler, no flags, no restorer, empty mask.
    pub fn new() -> (r: Self)
        ensures
            r.handler.0 == SigHandler::SIG_DFL,
            r.flags.0 == 0,
            r.restorer == 0,
            r.mask.bits() == 0,
    {
        SigAction {
            handler: SigHandler(SigHandler::SIG_DFL),
            flags: SigActionFlags::empty(),
            restorer: 0,
            mask: KernelSigSet::empty(),
        }
    }
}

impl Default for SigAction {
    fn default() -> (r: Self)
        ensures
            r.handler.0 == SigHandler::SIG_DFL,
            r.flags.0 == 0,
            r.restorer == 0,
            r.mask.bits() == 0,
    {
        Self::new()
    }
}


/// An alternate signal stack: its base address, flags and size.
#[derive(Debug, Clone, Copy, PartialEq, Eq, Structural)]
pub struct SigAltStack {
    pub ss_sp: u64,
    pub ss_flags: i32,
    pub ss_size: u64,
}

impl SigAltStack {
    /// The stack is in use.
    pub const SS_ONSTACK: i32 = 1;
    /// The stack is disabled.
    pub const SS_DISABLE: i32 = 2;

    /// The Linux and Darwin bits of each stack flag.
    pub open spec fn table() -> Seq<(u64, u64)> {
        seq![(1u64, 1u64), (2, 4)]
    }

    /// The stack that Darwin describes by base, size and flags.
    pub fn from_apple(ss_sp: u64, ss_size: u64, ss_flags: i32) -> (r: Self)
        ensures
            r == (SigAltStack {
                ss_sp,
                ss_flags: flags_from_apple(Self::table(), ss_flags as u64) as i32,
                ss_size,
            }),
    {
        let t = vec![(1u64, 1u64), (2, 4)];
        assert(t@ =~= Self::table());
        SigAltStack {
            ss_sp,
            ss_flags: convert_from_apple(t.as_slice(), ss_flags as u64) as i32,
            ss_size,
        }
    }
}


/// Collecting the signals of a set gives a set with the same signals.
pub proof fn lemma_signals_from_iter(set: KernelSigSet, sigs: Seq<SigNum>, back: KernelSigSet)
    requires
        forall|i: int| 0 <= i < sigs.len() ==> set.has(#[trigger] sigs[i].0),
        forall|s: u32| set.has(s) ==> exists|i: int| 0 <= i < sigs.len() && sigs[i].0 == s,
        forall|s: u32| back.has(s) == exists|i: int| 0 <= i < sigs.len() && sigs[i].0 == s,
    ensures
        forall|s: u32| back.has(s) == set.has(s),
{
    assert forall|s: u32| back.has(s) == set.has(s) by {
        if back.has(s) {
            let i = choose|i: int| 0 <= i < sigs.len() && sigs[i].0 == s;
            assert(set.has(sigs[i].0));
        }
    }
}

/// Collecting what a whole iteration of a set yields gives back a set with the same signals.
pub proof fn lemma_iteration_from_iter(set: KernelSigSet, back: KernelSigSet)
    requires
        forall|s: u32|
            back.has(s) == exists|i: int|
                0 <= i < members_from(set, 0).len() && (#[trigger] members_from(set, 0)[i]).0 == s,
    ensures
        forall|s: u32| back.has(s) == set.has(s),
{
    lemma_members_from(set, 0);
    lemma_signals_from_iter(set, members_from(set, 0), back);
}

/// A Linux signal that Darwin has comes back from Darwin as itself.
pub proof fn lemma_signum_round_trip(sig: u32)
    requires
        SigNum::apple_of(sig) is Some,
    ensures
        SigNum::linux_of(SigNum::apple_of(sig)->Some_0) == Some(sig),
{
}

/// Darwin `SIGHUP`.
pub const APPLE_SIGHUP: i32 = 1;
/// Darwin `SIGINT`.
pub const APPLE_SIGINT: i32 = 2;
/// Darwin `SIGQUIT`.
pub const APPLE_SIGQUIT: i32 = 3;
/// Darwin `SIGILL`.
pub const APPLE_SIGILL: i32 = 4;
/// Darwin `SIGTRAP`.
pub const APPLE_SIGTRAP: i32 = 5;
/// Darwin `SIGABRT`.
pub const APPLE_SIGABRT: i32 = 6;
/// Darwin `SIGBUS`.
pub const APPLE_SIGBUS: i32 = 10;
/// Darwin `SIGFPE`.
pub const APPLE_SIGFPE: i32 = 8;
/// Darwin `SIGKILL`.
pub const APPLE_SIGKILL: i32 = 9;
/// Darwin `SIGUSR1`.
pub const APPLE_SIGUSR1: i32 = 30;
/// Darwin `SIGSEGV`.
pub const APPLE_SIGSEGV: i32 = 11;
/// Darwin `SIGUSR2`.
pub const APPLE_SIGUSR2: i32 = 31;
/// Darwin `SIGPIPE`.
pub const APPLE_SIGPIPE: i32 = 13;
/// Darwin `SIGALRM`.
pub const APPLE_SIGALRM: i32 = 14;
/// Darwin `SIGTERM`.
pub const APPLE_SIGTERM: i32 = 15;
/// Darwin `SIGCHLD`.
pub const APPLE_SIGCHLD: i32 = 20;
/// Darwin `SIGCONT`.
pub const APPLE_SIGCONT: i32 = 19;
/// Darwin `SIGSTOP`.
pub const APPLE_SIGSTOP: i32 = 17;
/// Darwin `SIGTSTP`.
pub const APPLE_SIGTSTP: i32 = 18;
/// Darwin `SIGTTIN`.
pub const APPLE_SIGTTIN: i32 = 21;
/// Darwin `SIGTTOU`.
pub const APPLE_SIGTTOU: i32 = 22;
/// Darwin `SIGURG`.
pub const APPLE_SIGURG: i32 = 16;
/// Darwin `SIGXCPU`.
pub const APPLE_SIGXCPU: i32 = 24;
/// Darwin `SIGXFSZ`.
pub const APPLE_SIGXFSZ: i32 = 25;
/// Darwin `SIGVTALRM`.
pub const APPLE_SIGVTALRM: i32 = 26;
/// Darwin `SIGPROF`.
pub const APPLE_SIGPROF: i32 = 27;
/// Darwin `SIGWINCH`.
pub const APPLE_SIGWINCH: i32 = 28;
/// Darwin `SIGSYS`.
pub const APPLE_SIGSYS: i32 = 12;
/// Darwin `SIGIO`.
pub const APPLE_SIGIO: i32 = 23;

/// Each Linux signal stands for the Darwin signal of the same name (`SIGPOLL` for Darwin `SIGIO`), and
/// each Darwin signal is read back as the Linux signal of its name.
pub proof fn lemma_signal_by_name()
    ensures
        SigNum::apple_of(SigNum::SIGHUP) == Some(APPLE_SIGHUP),
        SigNum::linux_of(APPLE_SIGHUP) == Some(SigNum::SIGHUP),
        SigNum::apple_of(SigNum::SIGINT) == Some(APPLE_SIGINT),
        SigNum::linux_of(APPLE_SIGINT) == Some(SigNum::SIGINT),
        SigNum::apple_of(SigNum::SIGQUIT) == Some(APPLE_SIGQUIT),
        SigNum::linux_of(APPLE_SIGQUIT) == Some(SigNum::SIGQUIT),
        SigNum::apple_of(SigNum::SIGILL) == Some(APPLE_SIGILL),
        SigNum::linux_of(APPLE_SIGILL) == Some(SigNum::SIGILL),
        SigNum::apple_of(SigNum::SIGTRAP) == Some(APPLE_SIGTRAP),
        SigNum::linux_of(APPLE_SIGTRAP) == Some(SigNum::SIGTRAP),
        SigNum::apple_of(SigNum::SIGABRT) == Some(APPLE_SIGABRT),
        SigNum::linux_of(APPLE_SIGABRT) == Some(SigNum::SIGABRT),
        SigNum::apple_of(SigNum::SIGBUS) == Some(APPLE_SIGBUS),
        SigNum::linux_of(APPLE_SIGBUS) == Some(SigNum::SIGBUS),
        SigNum::apple_of(SigNum::SIGFPE) == Some(APPLE_SIGFPE),
        SigNum::linux_of(APPLE_SIGFPE) == Some(SigNum::SIGFPE),
        SigNum::apple_of(SigNum::SIGKILL) == Some(APPLE_SIGKILL),
        SigNum::linux_of(APPLE_SIGKILL) == Some(SigNum::SIGKILL),
        SigNum::apple_of(SigNum::SIGUSR1) == Some(APPLE_SIGUSR1),
        SigNum::linux_of(APPLE_SIGUSR1) == Some(SigNum::SIGUSR1),
        SigNum::apple_of(SigNum::SIGSEGV) == Some(APPLE_SIGSEGV),
        SigNum::linux_of(APPLE_SIGSEGV) == Some(SigNum::SIGSEGV),
        SigNum::apple_of(SigNum::SIGUSR2) == Some(APPLE_SIGUSR2),
        SigNum::linux_of(APPLE_SIGUSR2) == Some(SigNum::SIGUSR2),
        SigNum::apple_of(SigNum::SIGPIPE) == Some(APPLE_SIGPIPE),
        SigNum::linux_of(APPLE_SIGPIPE) == Some(SigNum::SIGPIPE),
        SigNum::apple_of(SigNum::SIGALRM) == Some(APPLE_SIGALRM),
        SigNum::linux_of(APPLE_SIGALRM) == Some(SigNum::SIGALRM),
        SigNum::apple_of(SigNum::SIGTERM) == Some(APPLE_SIGTERM),
        SigNum::linux_of(APPLE_SIGTERM) == Some(SigNum::SIGTERM),
        SigNum::apple_of(SigNum::SIGCHLD) == Some(APPLE_SIGCHLD),
        SigNum::linux_of(APPLE_SIGCHLD) == Some(SigNum::SIGCHLD),
        SigNum::apple_of(SigNum::SIGCONT) == Some(APPLE_SIGCONT),
        SigNum::linux_of(APPLE_SIGCONT) == Some(SigNum::SIGCONT),
        SigNum::apple_of(SigNum::SIGSTOP) == Some(APPLE_SIGSTOP),
        SigNum::linux_of(APPLE_SIGSTOP) == Some(SigNum::SIGSTOP),
        SigNum::apple_of(SigNum::SIGTSTP) == Some(APPLE_SIGTSTP),
        SigNum::linux_of(APPLE_SIGTSTP) == Some(SigNum::SIGTSTP),
        SigNum::apple_of(SigNum::SIGTTIN) == Some(APPLE_SIGTTIN),
        SigNum::linux_of(APPLE_SIGTTIN) == Some(SigNum::SIGTTIN),
        SigNum::apple_of(SigNum::SIGTTOU) == Some(APPLE_SIGTTOU),
        SigNum::linux_of(APPLE_SIGTTOU) == Some(SigNum::SIGTTOU),
        SigNum::apple_of(SigNum::SIGURG) == Some(APPLE_SIGURG),
        SigNum::linux_of(APPLE_SIGURG) == Some(SigNum::SIGURG),
        SigNum::apple_of(SigNum::SIGXCPU) == Some(APPLE_SIGXCPU),
        SigNum::linux_of(APPLE_SIGXCPU) == Some(SigNum::SIGXCPU),
        SigNum::apple_of(SigNum::SIGXFSZ) == Some(APPLE_SIGXFSZ),
        SigNum::linux_of(APPLE_SIGXFSZ) == Some(SigNum::SIGXFSZ),
        SigNum::apple_of(SigNum::SIGVTALRM) == Some(APPLE_SIGVTALRM),
        SigNum::linux_of(APPLE_SIGVTALRM) == Some(SigNum::SIGVTALRM),
        SigNum::apple_of(SigNum::SIGPROF) == Some(APPLE_SIGPROF),
        SigNum::linux_of(APPLE_SIGPROF) == Some(SigNum::SIGPROF),
        SigNum::apple_of(SigNum::SIGWINCH) == Some(APPLE_SIGWINCH),
        SigNum::linux_of(APPLE_SIGWINCH) == Some(SigNum::SIGWINCH),
        SigNum::apple_of(SigNum::SIGSYS) == Some(APPLE_SIGSYS),
        SigNum::linux_of(APPLE_SIGSYS) == Some(SigNum::SIGSYS),
        SigNum::apple_of(SigNum::SIGSTKFLT) is None,
        SigNum::apple_of(SigNum::SIGPWR) is None,
        SigNum::apple_of(SigNum::SIGRTMIN) is None,
        SigNum::apple_of(SigNum::SIGRTMAX) is None,
        SigNum::apple_of(SigNum::SIGPOLL) == Some(APPLE_SIGIO),
        SigNum::linux_of(APPLE_SIGIO) == Some(SigNum::SIGPOLL),
{
}

/// Darwin `SIG_BLOCK`.
pub const APPLE_SIG_BLOCK: i32 = 1;
/// Darwin `SIG_UNBLOCK`.
pub const APPLE_SIG_UNBLOCK: i32 = 2;
/// Darwin `SIG_SETMASK`.
pub const APPLE_SIG_SETMASK: i32 = 3;

/// Each way of changing a signal mask stands for the Darwin way of the same name.
pub proof fn lemma_mask_howto_by_name()
    ensures
        MaskHowto::apple_of(MaskHowto::SIG_BLOCK) == Some(APPLE_SIG_BLOCK),
        MaskHowto::linux_of(APPLE_SIG_BLOCK) == Some(MaskHowto::SIG_BLOCK),
        MaskHowto::apple_of(MaskHowto::SIG_UNBLOCK) == Some(APPLE_SIG_UNBLOCK),
        MaskHowto::linux_of(APPLE_SIG_UNBLOCK) == Some(MaskHowto::SIG_UNBLOCK),
        MaskHowto::apple_of(MaskHowto::SIG_SETMASK) == Some(APPLE_SIG_SETMASK),
        MaskHowto::linux_of(APPLE_SIG_SETMASK) == Some(MaskHowto::SIG_SETMASK),
{
}

/// Darwin `SS_ONSTACK`.
pub const APPLE_SS_ONSTACK: u64 = 0x1;
/// Darwin `SS_DISABLE`.
pub const APPLE_SS_DISABLE: u64 = 0x4;

/// Each Darwin alternate stack flag is read back as the Linux flag of its name.
pub proof fn lemma_sig_alt_stack_by_name()
    ensures
        flags_from_apple(SigAltStack::table(), APPLE_SS_ONSTACK) == SigAltStack::SS_ONSTACK as u64,
        flags_from_apple(SigAltStack::table(), APPLE_SS_DISABLE) == SigAltStack::SS_DISABLE as u64,
{
    let t = SigAltStack::table();
    assert(t[0] == (0x1u64, 0x1u64));
    assert(t[1] == (0x2u64, 0x4u64));
    assert(0x1u64 & 0x4u64 == 0) by (bit_vector);
    assert forall|i: int, j: int| 0 <= i < j < t.len() implies #[trigger] t[i].1 & #[trigger] t[j].1 == 0 by {
    }
    assert(apple_disjoint(t));
    lemma_from_apple_entry(t, 0);
    lemma_from_apple_entry(t, 1);
}

} // verus!
