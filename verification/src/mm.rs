//! Memory mappings: protections, flags and advice.

use vstd::prelude::*;

use crate::error::LxError;
use crate::flags::{
    apple_disjoint, convert_from_apple, convert_to_apple, flags_from_apple, flags_known, flags_to_apple,
    lemma_flags_round_trip, lemma_from_apple_entry, lemma_to_apple_entry, lemma_to_apple_fits_i32,
};
use crate::{FromApple, ToApple};

verus! {

/// The access that a mapping allows.
#[derive(Debug, Clone, Copy, PartialEq, Eq, Structural)]
pub struct MmapProt(pub u32);

impl MmapProt {
    pub const PROT_READ: u32 = 1;
    pub const PROT_WRITE: u32 = 2;
    pub const PROT_EXEC: u32 = 4;

    /// The Darwin protection: read and write as they are, and execution with write, since
    /// code that reaches thread-local storage through `fs` is rewritten in place.
    pub open spec fn apple_bits(self) -> i32 {
        let r = if self.0 & 1 == 1 { 0i32 | 1 } else { 0i32 };
        let w = if self.0 & 2 == 2 { r | 2 } else { r };
        if self.0 & 4 == 4 { w | 4 | 2 } else { w }
    }
}

impl ToApple for MmapProt {
    type Apple = i32;

    fn to_apple(self) -> (r: Result<i32, LxError>)
        ensures
            r == Ok::<i32, LxError>(self.apple_bits()),
    {
        let mut apple: i32 = 0;
        if self.0 & Self::PROT_READ == Self::PROT_READ {
            apple = apple | 1;
        }
        if self.0 & Self::PROT_WRITE == Self::PROT_WRITE {
            apple = apple | 2;
        }
        if self.0 & Self::PROT_EXEC == Self::PROT_EXEC {
            apple = apple | 4 | 2;
        }
        Ok(apple)
    }
}

/// Flags of `mremap`.
#[derive(Debug, Clone, Copy, PartialEq, Eq, Structural)]
pub struct MremapFlags(pub u32);

impl MremapFlags {
    pub const MREMAP_MAYMOVE: u32 = 1;
    pub const MREMAP_FIXED: u32 = 2;
    pub const MREMAP_DONTUNMAP: u32 = 4;
}

/// Flags of `mmap`.
#[derive(Debug, Clone, Copy, PartialEq, Eq, Structural)]
pub struct MmapFlags(pub u32);

impl MmapFlags {
    pub const MAP_ANON: u32 = 0x20;
    pub const MAP_PRIVATE: u32 = 0x2;
    pub const MAP_FIXED: u32 = 0x10;

    /// The Linux and Darwin bits of each flag that both platforms know.
    pub open spec fn table() -> Seq<(u64, u64)> {
        seq![(0x20u64, 0x1000u64), (0x2, 0x2), (0x10, 0x10)]
    }

    fn exec_table() -> (r: Vec<(u64, u64)>)
        ensures
            r@ == Self::table(),
    {
        let r = vec![(0x20u64, 0x1000u64), (0x2, 0x2), (0x10, 0x10)];
        assert(r@ =~= Self::table());
        r
    }
}

impl FromApple for MmapFlags {
    type Apple = i32;

    fn from_apple(apple: i32) -> (r: Result<Self, LxError>)
        ensures
            r == Ok::<MmapFlags, LxError>(MmapFlags(flags_from_apple(Self::table(), apple as u64) as u32)),
    {
        let t = Self::exec_table();
        Ok(MmapFlags(convert_from_apple(t.as_slice(), apple as u64) as u32))
    }
}

impl ToApple for MmapFlags {
    type Apple = i32;

    fn to_apple(self) -> (r: Result<i32, LxError>)
        ensures
            r == Ok::<i32, LxError>(flags_to_apple(Self::table(), self.0 as u64) as i32),
    {
        let t = Self::exec_table();
        Ok(convert_to_apple(t.as_slice(), self.0 as u64) as i32)
    }
}

/// Flags of `msync`.
#[derive(Debug, Clone, Copy, PartialEq, Eq, Structural)]
pub struct MsyncFlags(pub u32);

impl MsyncFlags {
    pub const MS_ASYNC: u32 = 0x1;
    pub const MS_INVALIDATE: u32 = 0x2;
    pub const MS_SYNC: u32 = 0x4;

    /// The Linux and Darwin bits of each flag that both platforms know.
    pub open spec fn table() -> Seq<(u64, u64)> {
        seq![(0x1u64, 0x1u64), (0x2, 0x2), (0x4, 0x10)]
    }

    fn exec_table() -> (r: Vec<(u64, u64)>)
        ensures
            r@ == Self::table(),
    {
        let r = vec![(0x1u64, 0x1u64), (0x2, 0x2), (0x4, 0x10)];
        assert(r@ =~= Self::table());
        r
    }
}

impl FromApple for MsyncFlags {
    type Apple = i32;

    fn from_apple(apple: i32) -> (r: Result<Self, LxError>)
        ensures
            r == Ok::<MsyncFlags, LxError>(MsyncFlags(flags_from_apple(Self::table(), apple as u64) as u32)),
    {
        let t = Self::exec_table();
        Ok(MsyncFlags(convert_from_apple(t.as_slice(), apple as u64) as u32))
    }
}

impl ToApple for MsyncFlags {
    type Apple = i32;

    fn to_apple(self) -> (r: Result<i32, LxError>)
        ensures
            r == Ok::<i32, LxError>(flags_to_apple(Self::table(), self.0 as u64) as i32),
    {
        let t = Self::exec_table();
        Ok(convert_to_apple(t.as_slice(), self.0 as u64) as i32)
    }
}

/// Advice on the use of memory.
#[derive(Debug, Clone, Copy, PartialEq, Eq, Structural)]
pub struct Madvice(pub u32);

impl Madvice {
    pub const MADV_NORMAL: u32 = 0;
    pub const MADV_RANDOM: u32 = 1;
    pub const MADV_SEQUENTIAL: u32 = 2;
    pub const MADV_WILLNEED: u32 = 3;
    pub const MADV_DONTNEED: u32 = 4;
    pub const MADV_FREE: u32 = 8;
    pub const MADV_REMOVE: u32 = 9;
    pub const MADV_DONTFORK: u32 = 10;
    pub const MADV_DOFORK: u32 = 11;
    pub const MADV_MERGEABLE: u32 = 12;
    pub const MADV_UNMERGEABLE: u32 = 13;
    pub const MADV_HUGEPAGE: u32 = 14;
    pub const MADV_NOHUGEPAGE: u32 = 15;
    pub const MADV_DONTDUMP: u32 = 16;
    pub const MADV_DODUMP: u32 = 17;
    pub const MADV_WIPEONFORK: u32 = 18;
    pub const MADV_KEEPONFORK: u32 = 19;
    pub const MADV_COLD: u32 = 20;
    pub const MADV_PAGEOUT: u32 = 21;
    pub const MADV_POPULATE_READ: u32 = 22;
    pub const MADV_POPULATE_WRITE: u32 = 23;
    pub const MADV_COLLAPSE: u32 = 25;
    pub const MADV_HWPOISON: u32 = 100;
    pub const MADV_SOFT_OFFLINE: u32 = 101;
    pub const MADV_GUARD_INSTALL: u32 = 102;
    pub const MADV_GUARD_REMOVE: u32 = 103;

    /// The Darwin value that the Linux value `linux` stands for, if Darwin has one.
    pub open spec fn apple_of(linux: u32) -> Option<i32> {
        match linux {
            0 => Some(0i32),
            1 => Some(1i32),
            2 => Some(2i32),
            3 => Some(3i32),
            4 => Some(4i32),
            8 => Some(5i32),
            _ => None,
        }
    }

    /// The Linux value that the Darwin value `apple` is read as, if any.
    pub open spec fn linux_of(apple: i32) -> Option<u32> {
        match apple {
            0 => Some(0u32),
            1 => Some(1u32),
            2 => Some(2u32),
            3 => Some(3u32),
            4 => Some(4u32),
            5 => Some(8u32),
            _ => None,
        }
    }

}

impl FromApple for Madvice {
    type Apple = i32;

    fn from_apple(apple: i32) -> (r: Result<Self, LxError>)
        ensures
            r == (match Self::linux_of(apple) {
                Some(x) => Ok(Madvice(x)),
                None => Err(LxError(LxError::EINVAL)),
            }),
    {
        match apple {
            0 => Ok(Madvice(Self::MADV_NORMAL)),
            1 => Ok(Madvice(Self::MADV_RANDOM)),
            2 => Ok(Madvice(Self::MADV_SEQUENTIAL)),
            3 => Ok(Madvice(Self::MADV_WILLNEED)),
            4 => Ok(Madvice(Self::MADV_DONTNEED)),
            5 => Ok(Madvice(Self::MADV_FREE)),
            _ => Err(LxError(LxError::EINVAL)),
        }
    }
}

impl ToApple for Madvice {
    type Apple = i32;

    fn to_apple(self) -> (r: Result<i32, LxError>)
        ensures
            r == (match Self::apple_of(self.0) {
                Some(a) => Ok(a),
                None => Err(LxError(LxError::EINVAL)),
            }),
    {
        match self.0 {
            0 => Ok(0),
            1 => Ok(1),
            2 => Ok(2),
            3 => Ok(3),
            4 => Ok(4),
            8 => Ok(5),
            _ => Err(LxError(LxError::EINVAL)),
        }
    }
}

/// Each flag of `mmap` has Darwin bits of its own, below bit 31.
proof fn lemma_mmap_table()
    ensures
        apple_disjoint(MmapFlags::table()),
        forall|j: int|
            0 <= j < MmapFlags::table().len() ==> #[trigger] MmapFlags::table()[j].1 & 0xffff_ffff_8000_0000u64 == 0,
{
    let t = MmapFlags::table();
    assert(t[0].1 == 0x1000u64);
    assert(t[1].1 == 0x2u64);
    assert(t[2].1 == 0x10u64);
    assert(0x1000u64 & 0x2u64 == 0 && 0x1000u64 & 0x10u64 == 0 && 0x2u64 & 0x10u64 == 0 && 0x1000u64 & 0xffffffff80000000u64 == 0 && 0x2u64 & 0xffffffff80000000u64 == 0 && 0x10u64 & 0xffffffff80000000u64 == 0) by (bit_vector);
    assert forall|i: int, j: int| 0 <= i < j < t.len() implies #[trigger] t[i].1 & #[trigger] t[j].1 == 0 by {
    }
    assert forall|j: int| 0 <= j < t.len() implies #[trigger] t[j].1 & 0xffff_ffff_8000_0000u64 == 0 by {
    }
}

/// The `mmap` flags that Darwin knows come back unchanged from a trip to Darwin and back.
pub proof fn lemma_mmap_flags_round_trip(flags: u32)
    ensures
        flags_from_apple(MmapFlags::table(), (flags_to_apple(MmapFlags::table(), flags as u64) as i32) as u64)
            == flags_known(MmapFlags::table(), flags as u64),
{
    lemma_mmap_table();
    lemma_flags_round_trip(MmapFlags::table(), flags as u64);
    lemma_to_apple_fits_i32(MmapFlags::table(), flags as u64);
}

/// Each flag of `msync` has Darwin bits of its own, below bit 31.
proof fn lemma_msync_table()
    ensures
        apple_disjoint(MsyncFlags::table()),
        forall|j: int|
            0 <= j < MsyncFlags::table().len() ==> #[trigger] MsyncFlags::table()[j].1 & 0xffff_ffff_8000_0000u64 == 0,
{
    let t = MsyncFlags::table();
    assert(t[0].1 == 0x1u64);
    assert(t[1].1 == 0x2u64);
    assert(t[2].1 == 0x10u64);
    assert(0x1u64 & 0x2u64 == 0 && 0x1u64 & 0x10u64 == 0 && 0x2u64 & 0x10u64 == 0 && 0x1u64 & 0xffffffff80000000u64 == 0 && 0x2u64 & 0xffffffff80000000u64 == 0 && 0x10u64 & 0xffffffff80000000u64 == 0) by (bit_vector);
    assert forall|i: int, j: int| 0 <= i < j < t.len() implies #[trigger] t[i].1 & #[trigger] t[j].1 == 0 by {
    }
    assert forall|j: int| 0 <= j < t.len() implies #[trigger] t[j].1 & 0xffff_ffff_8000_0000u64 == 0 by {
    }
}

/// The `msync` flags that Darwin knows come back unchanged from a trip to Darwin and back.
pub proof fn lemma_msync_flags_round_trip(flags: u32)
    ensures
        flags_from_apple(MsyncFlags::table(), (flags_to_apple(MsyncFlags::table(), flags as u64) as i32) as u64)
            == flags_known(MsyncFlags::table(), flags as u64),
{
    lemma_msync_table();
    lemma_flags_round_trip(MsyncFlags::table(), flags as u64);
    lemma_to_apple_fits_i32(MsyncFlags::table(), flags as u64);
}

/// Darwin `MADV_NORMAL`.
pub const APPLE_MADV_NORMAL: i32 = 0;
/// Darwin `MADV_RANDOM`.
pub const APPLE_MADV_RANDOM: i32 = 1;
/// Darwin `MADV_SEQUENTIAL`.
pub const APPLE_MADV_SEQUENTIAL: i32 = 2;
/// Darwin `MADV_WILLNEED`.
pub const APPLE_MADV_WILLNEED: i32 = 3;
/// Darwin `MADV_DONTNEED`.
pub const APPLE_MADV_DONTNEED: i32 = 4;
/// Darwin `MADV_FREE`.
pub const APPLE_MADV_FREE: i32 = 5;

/// Each piece of memory advice stands for the Darwin advice of the same name.
pub proof fn lemma_madvice_by_name()
    ensures
        Madvice::apple_of(Madvice::MADV_NORMAL) == Some(APPLE_MADV_NORMAL),
        Madvice::linux_of(APPLE_MADV_NORMAL) == Some(Madvice::MADV_NORMAL),
        Madvice::apple_of(Madvice::MADV_RANDOM) == Some(APPLE_MADV_RANDOM),
        Madvice::linux_of(APPLE_MADV_RANDOM) == Some(Madvice::MADV_RANDOM),
        Madvice::apple_of(Madvice::MADV_SEQUENTIAL) == Some(APPLE_MADV_SEQUENTIAL),
        Madvice::linux_of(APPLE_MADV_SEQUENTIAL) == Some(Madvice::MADV_SEQUENTIAL),
        Madvice::apple_of(Madvice::MADV_WILLNEED) == Some(APPLE_MADV_WILLNEED),
        Madvice::linux_of(APPLE_MADV_WILLNEED) == Some(Madvice::MADV_WILLNEED),
        Madvice::apple_of(Madvice::MADV_DONTNEED) == Some(APPLE_MADV_DONTNEED),
        Madvice::linux_of(APPLE_MADV_DONTNEED) == Some(Madvice::MADV_DONTNEED),
        Madvice::apple_of(Madvice::MADV_FREE) == Some(APPLE_MADV_FREE),
        Madvice::linux_of(APPLE_MADV_FREE) == Some(Madvice::MADV_FREE),
        Madvice::apple_of(Madvice::MADV_REMOVE) is None,
        Madvice::apple_of(Madvice::MADV_DONTFORK) is None,
        Madvice::apple_of(Madvice::MADV_DOFORK) is None,
        Madvice::apple_of(Madvice::MADV_MERGEABLE) is None,
        Madvice::apple_of(Madvice::MADV_UNMERGEABLE) is None,
        Madvice::apple_of(Madvice::MADV_HUGEPAGE) is None,
        Madvice::apple_of(Madvice::MADV_NOHUGEPAGE) is None,
        Madvice::apple_of(Madvice::MADV_DONTDUMP) is None,
        Madvice::apple_of(Madvice::MADV_DODUMP) is None,
        Madvice::apple_of(Madvice::MADV_WIPEONFORK) is None,
        Madvice::apple_of(Madvice::MADV_KEEPONFORK) is None,
        Madvice::apple_of(Madvice::MADV_COLD) is None,
        Madvice::apple_of(Madvice::MADV_PAGEOUT) is None,
        Madvice::apple_of(Madvice::MADV_POPULATE_READ) is None,
        Madvice::apple_of(Madvice::MADV_POPULATE_WRITE) is None,
        Madvice::apple_of(Madvice::MADV_COLLAPSE) is None,
        Madvice::apple_of(Madvice::MADV_HWPOISON) is None,
        Madvice::apple_of(Madvice::MADV_SOFT_OFFLINE) is None,
        Madvice::apple_of(Madvice::MADV_GUARD_INSTALL) is None,
        Madvice::apple_of(Madvice::MADV_GUARD_REMOVE) is None,
{
}

/// Darwin `MAP_ANON`.
pub const APPLE_MAP_ANON: u64 = 0x1000;
/// Darwin `MAP_PRIVATE`.
pub const APPLE_MAP_PRIVATE: u64 = 0x2;
/// Darwin `MAP_FIXED`.
pub const APPLE_MAP_FIXED: u64 = 0x10;

/// Each mapping flag becomes the Darwin flag of the same name, and each Darwin flag is read back as
/// the Linux flag of its name.
pub proof fn lemma_mmap_flags_by_name()
    ensures
        flags_to_apple(MmapFlags::table(), MmapFlags::MAP_ANON as u64) == APPLE_MAP_ANON,
        flags_to_apple(MmapFlags::table(), MmapFlags::MAP_PRIVATE as u64) == APPLE_MAP_PRIVATE,
        flags_to_apple(MmapFlags::table(), MmapFlags::MAP_FIXED as u64) == APPLE_MAP_FIXED,
        flags_from_apple(MmapFlags::table(), APPLE_MAP_ANON) == MmapFlags::MAP_ANON as u64,
        flags_from_apple(MmapFlags::table(), APPLE_MAP_PRIVATE) == MmapFlags::MAP_PRIVATE as u64,
        flags_from_apple(MmapFlags::table(), APPLE_MAP_FIXED) == MmapFlags::MAP_FIXED as u64,
{
    let t = MmapFlags::table();
    assert(t[0] == (0x20u64, 0x1000u64));
    assert(t[1] == (0x2u64, 0x2u64));
    assert(t[2] == (0x10u64, 0x10u64));
    assert(0x20u64 & 0x20u64 == 0x20u64 && 0x20u64 & 0x2u64 != 0x2u64 && 0x20u64 & 0x10u64 != 0x10u64 && 0x2u64 & 0x2u64 == 0x2u64 && 0x2u64 & 0x20u64 != 0x20u64 && 0x2u64 & 0x10u64 != 0x10u64 && 0x10u64 & 0x10u64 == 0x10u64 && 0x10u64 & 0x20u64 != 0x20u64 && 0x10u64 & 0x2u64 != 0x2u64 && 0x1000u64 != 0 && 0x2u64 != 0 && 0x10u64 != 0) by (bit_vector);
    lemma_mmap_table();
    lemma_to_apple_entry(t, MmapFlags::MAP_ANON as u64, 0);
    lemma_from_apple_entry(t, 0);
    lemma_to_apple_entry(t, MmapFlags::MAP_PRIVATE as u64, 1);
    lemma_from_apple_entry(t, 1);
    lemma_to_apple_entry(t, MmapFlags::MAP_FIXED as u64, 2);
    lemma_from_apple_entry(t, 2);
}

/// Darwin `MS_ASYNC`.
pub const APPLE_MS_ASYNC: u64 = 0x1;
/// Darwin `MS_INVALIDATE`.
pub const APPLE_MS_INVALIDATE: u64 = 0x2;
/// Darwin `MS_SYNC`.
pub const APPLE_MS_SYNC: u64 = 0x10;

/// Each flag of `msync` becomes the Darwin flag of the same name, and each Darwin flag is read back
/// as the Linux flag of its name.
pub proof fn lemma_msync_flags_by_name()
    ensures
        flags_to_apple(MsyncFlags::table(), MsyncFlags::MS_ASYNC as u64) == APPLE_MS_ASYNC,
        flags_to_apple(MsyncFlags::table(), MsyncFlags::MS_INVALIDATE as u64) == APPLE_MS_INVALIDATE,
        flags_to_apple(MsyncFlags::table(), MsyncFlags::MS_SYNC as u64) == APPLE_MS_SYNC,
        flags_from_apple(MsyncFlags::table(), APPLE_MS_ASYNC) == MsyncFlags::MS_ASYNC as u64,
        flags_from_apple(MsyncFlags::table(), APPLE_MS_INVALIDATE) == MsyncFlags::MS_INVALIDATE as u64,
        flags_from_apple(MsyncFlags::table(), APPLE_MS_SYNC) == MsyncFlags::MS_SYNC as u64,
{
    let t = MsyncFlags::table();
    assert(t[0] == (0x1u64, 0x1u64));
    assert(t[1] == (0x2u64, 0x2u64));
    assert(t[2] == (0x4u64, 0x10u64));
    assert(0x1u64 & 0x1u64 == 0x1u64 && 0x1u64 & 0x2u64 != 0x2u64 && 0x1u64 & 0x4u64 != 0x4u64 && 0x2u64 & 0x2u64 == 0x2u64 && 0x2u64 & 0x1u64 != 0x1u64 && 0x2u64 & 0x4u64 != 0x4u64 && 0x4u64 & 0x4u64 == 0x4u64 && 0x4u64 & 0x1u64 != 0x1u64 && 0x4u64 & 0x2u64 != 0x2u64 && 0x1u64 != 0 && 0x2u64 != 0 && 0x10u64 != 0) by (bit_vector);
    lemma_msync_table();
    lemma_to_apple_entry(t, MsyncFlags::MS_ASYNC as u64, 0);
    lemma_from_apple_entry(t, 0);
    lemma_to_apple_entry(t, MsyncFlags::MS_INVALIDATE as u64, 1);
    lemma_from_apple_entry(t, 1);
    lemma_to_apple_entry(t, MsyncFlags::MS_SYNC as u64, 2);
    lemma_from_apple_entry(t, 2);
}

} // verus!
