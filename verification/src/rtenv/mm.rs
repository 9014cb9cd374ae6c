//! Memory management: what `madvise` and `mremap` do on Darwin.

use vstd::prelude::*;

use crate::error::LxError;
use crate::flags::flags_to_apple;
use crate::mm::{Madvice, MmapFlags, MmapProt};
use crate::ToApple;

verus! {

/// What an `madvise` call does.
#[derive(Debug, Clone, Copy, PartialEq, Eq, Structural)]
pub enum AdvicePlan {
    /// Darwin's `madvise` with this advice.
    Native(i32),
    /// Nothing: the advice is a hint that Darwin has no use for.
    Ignore,
}

/// `madvise`: the Darwin advice where Darwin has one; nothing for `MADV_MERGEABLE`,
/// `MADV_UNMERGEABLE`, `MADV_COLD` and `MADV_PAGEOUT`; `EINVAL` for any other advice.
pub fn advise(advice: Madvice) -> (r: Result<AdvicePlan, LxError>)
    ensures
        r == match Madvice::apple_of(advice.0) {
            Some(a) => Ok(AdvicePlan::Native(a)),
            None => if advice.0 == Madvice::MADV_MERGEABLE || advice.0 == Madvice::MADV_UNMERGEABLE
                || advice.0 == Madvice::MADV_COLD || advice.0 == Madvice::MADV_PAGEOUT {
                Ok(AdvicePlan::Ignore)
            } else {
                Err(LxError(LxError::EINVAL))
            },
        },
{
    if let Ok(a) = advice.to_apple() {
        return Ok(AdvicePlan::Native(a));
    }
    if advice.0 == Madvice::MADV_MERGEABLE || advice.0 == Madvice::MADV_UNMERGEABLE
        || advice.0 == Madvice::MADV_COLD || advice.0 == Madvice::MADV_PAGEOUT {
        Ok(AdvicePlan::Ignore)
    } else {
        Err(LxError(LxError::EINVAL))
    }
}

/// How `mremap` moves a mapping: a new private anonymous mapping, readable and writable, of the
/// new size at the requested address, into which the start of the old one is copied.
#[derive(Debug, Clone, Copy, PartialEq, Eq, Structural)]
pub struct RemapPlan {
    /// The Darwin protection of the new mapping.
    pub prot: i32,
    /// The Darwin flags of the new mapping.
    pub flags: i32,
    /// The size of the new mapping.
    pub len: usize,
    /// The number of bytes copied from the old mapping.
    pub copy: usize,
}

/// `mremap` from a mapping of `old_size` bytes to one of `new_size` bytes.
pub fn remap(old_size: usize, new_size: usize) -> (r: RemapPlan)
    ensures
        r.prot == MmapProt(MmapProt::PROT_READ | MmapProt::PROT_WRITE).apple_bits(),
        r.flags == flags_to_apple(
            MmapFlags::table(),
            (MmapFlags::MAP_PRIVATE | MmapFlags::MAP_ANON) as u64,
        ) as i32,
        r.len == new_size,
        r.copy == if old_size < new_size {
            old_size
        } else {
            new_size
        },
{
    let prot = match MmapProt(MmapProt::PROT_READ | MmapProt::PROT_WRITE).to_apple() {
        Ok(p) => p,
        Err(_) => 0,
    };
    let flags = match MmapFlags(MmapFlags::MAP_PRIVATE | MmapFlags::MAP_ANON).to_apple() {
        Ok(f) => f,
        Err(_) => 0,
    };
    let copy = if old_size < new_size {
        old_size
    } else {
        new_size
    };
    RemapPlan { prot, flags, len: new_size, copy }
}

} // verus!
