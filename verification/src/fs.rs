//! File system flags, directory entries and file status.

use crate::bytes::{le_bytes, push_le};
use crate::error::LxError;
use crate::flags::{
    apple_disjoint, convert_from_apple, convert_to_apple, flags_from_apple, flags_known, flags_to_apple,
    lemma_flags_round_trip, lemma_from_apple_entry, lemma_to_apple_entry, lemma_to_apple_fits_i32,
    lemma_to_apple_nothing,
};
use crate::time::Timespec;
use crate::{FromApple, ToApple};
use vstd::prelude::*;

verus! {

/// Flags of `open`.
#[derive(Debug, Clone, Copy, PartialEq, Eq, Structural)]
pub struct OpenFlags(pub u32);

impl OpenFlags {
    pub const O_RDONLY: u32 = 0;
    pub const O_WRONLY: u32 = 1;
    pub const O_RDWR: u32 = 2;
    pub const O_CREAT: u32 = 0o100;
    pub const O_EXCL: u32 = 0o200;
    pub const O_NOCTTY: u32 = 0o400;
    pub const O_TRUNC: u32 = 0o1000;
    pub const O_NONBLOCK: u32 = 0o4000;
    pub const O_DSYNC: u32 = 0o10000;
    pub const O_ASYNC: u32 = 0o20000;
    pub const O_DIRECT: u32 = 0o40000;
    pub const O_LARGEFILE: u32 = 0o100000;
    pub const O_DIRECTORY: u32 = 0o200000;
    pub const O_NOFOLLOW: u32 = 0o400000;
    pub const O_NOATIME: u32 = 0o1000000;
    pub const O_CLOEXEC: u32 = 0o2000000;
    pub const O_SYNC: u32 = 0o4010000;
    pub const O_PATH: u32 = 0o10000000;
    pub const O_TMPFILE: u32 = 0o20200000;

    /// Whether every bit of `flag` is set.
    pub open spec fn has(self, flag: u32) -> bool {
        self.0 & flag == flag
    }

    /// Tests whether every bit of `flag` is set.
    pub fn contains(self, flag: u32) -> (r: bool)
        ensures
            r == self.has(flag),
    {
        self.0 & flag == flag
    }

    /// Whether a file opened with these flags can be read: it is neither write-only nor opened
    /// as a bare path.
    pub fn is_readable(self) -> (r: bool)
        ensures
            r == !(self.has(Self::O_PATH) || self.has(Self::O_WRONLY)),
    {
        let path_only = self.contains(Self::O_PATH);
        let write_only = self.contains(Self::O_WRONLY);
        !(path_only || write_only)
    }

    /// Whether a file opened with these flags can be written: it is write-only, or opened for
    /// reading and writing and not as a bare path.
    pub fn is_writable(self) -> (r: bool)
        ensures
            r == (self.has(Self::O_WRONLY) || (self.has(Self::O_RDWR) && !self.has(Self::O_PATH))),
    {
        let write_only = self.contains(Self::O_WRONLY);
        let read_write = self.contains(Self::O_RDWR);
        let path_only = self.contains(Self::O_PATH);
        write_only || read_write && !path_only
    }

    /// The Linux and Darwin bits of the flags that both systems know.
    pub open spec fn table() -> Seq<(u64, u64)> {
        seq![
            (0u64, 0u64), (1, 1), (2, 2), (0o100, 512), (0o200, 2048), (0o400, 0x0002_0000),
            (0o1000, 1024), (0o4000, 0x4), (0o10000, 0x0040_0000), (0o20000, 0x40),
            (0o200000, 0x0010_0000), (0o400000, 0x100), (0o2000000, 0x0100_0000),
            (0o4010000, 0x80),
        ]
    }

    fn exec_table() -> (r: Vec<(u64, u64)>)
        ensures
            r@ == Self::table(),
    {
        let r = vec![
            (0u64, 0u64), (1, 1), (2, 2), (0o100, 512), (0o200, 2048), (0o400, 0x0002_0000),
            (0o1000, 1024), (0o4000, 0x4), (0o10000, 0x0040_0000), (0o20000, 0x40),
            (0o200000, 0x0010_0000), (0o400000, 0x100), (0o2000000, 0x0100_0000),
            (0o4010000, 0x80),
        ];
        assert(r@ =~= Self::table());
        r
    }
}

impl FromApple for OpenFlags {
    type Apple = i32;

    fn from_apple(apple: i32) -> (r: Result<Self, LxError>)
        ensures
            r == Ok::<OpenFlags, LxError>(
                OpenFlags(flags_from_apple(Self::table(), apple as u64) as u32),
            ),
    {
        let t = Self::exec_table();
        Ok(OpenFlags(convert_from_apple(t.as_slice(), apple as u64) as u32))
    }
}

impl ToApple for OpenFlags {
    type Apple = i32;

    fn to_apple(self) -> (r: Result<i32, LxError>)
        ensures
            r == Ok::<i32, LxError>(flags_to_apple(Self::table(), self.0 as u64) as i32),
    {
        let t = Self::exec_table();
        Ok(convert_to_apple(t.as_slice(), self.0 as u64) as i32)
    }
}

/// Flags of the `*at` family of calls.
#[derive(Debug, Clone, Copy, PartialEq, Eq, Structural)]
pub struct AtFlags(pub u32);

impl AtFlags {
    pub const AT_EMPTY_PATH: u32 = 0x1000;
    pub const AT_SYMLINK_NOFOLLOW: u32 = 0x100;

    /// The empty set of flags.
    pub fn empty() -> (r: Self)
        ensures
            r.0 == 0,
    {
        AtFlags(0)
    }

    /// Whether every bit of `flag` is set.
    pub open spec fn has(self, flag: u32) -> bool {
        self.0 & flag == flag
    }

    /// Tests whether every bit of `flag` is set.
    pub fn contains(self, flag: u32) -> (r: bool)
        ensures
            r == self.has(flag),
    {
        self.0 & flag == flag
    }
}

/// Flags of `access`.
#[derive(Debug, Clone, Copy, PartialEq, Eq, Structural)]
pub struct AccessFlags(pub u32);

impl AccessFlags {
    pub const F_OK: u32 = 0;
    pub const R_OK: u32 = 4;
    pub const W_OK: u32 = 2;
    pub const X_OK: u32 = 1;

    /// The Linux and Darwin bits of each flag.
    pub open spec fn table() -> Seq<(u64, u64)> {
        seq![(0u64, 0u64), (4, 4), (2, 2), (1, 1)]
    }

    fn exec_table() -> (r: Vec<(u64, u64)>)
        ensures
            r@ == Self::table(),
    {
        let r = vec![(0u64, 0u64), (4, 4), (2, 2), (1, 1)];
        assert(r@ =~= Self::table());
        r
    }
}

impl FromApple for AccessFlags {
    type Apple = i32;

    fn from_apple(apple: i32) -> (r: Result<Self, LxError>)
        ensures
            r == Ok::<AccessFlags, LxError>(
                AccessFlags(flags_from_apple(Self::table(), apple as u64) as u32),
            ),
    {
        let t = Self::exec_table();
        Ok(AccessFlags(convert_from_apple(t.as_slice(), apple as u64) as u32))
    }
}

impl ToApple for AccessFlags {
    type Apple = i32;

    fn to_apple(self) -> (r: Result<i32, LxError>)
        ensures
            r == Ok::<i32, LxError>(flags_to_apple(Self::table(), self.0 as u64) as i32),
    {
        let t = Self::exec_table();
        Ok(convert_to_apple(t.as_slice(), self.0 as u64) as i32)
    }
}

/// Flags of `umount2`.
#[derive(Debug, Clone, Copy, PartialEq, Eq, Structural)]
pub struct UmountFlags(pub u32);

impl UmountFlags {
    pub const MNT_FORCE: u32 = 1;
    pub const MNT_DETACH: u32 = 2;
    pub const MNT_EXPIRE: u32 = 4;
    pub const UMOUNT_NOFOLLOW: u32 = 8;
}

/// The type of a directory entry.
#[derive(Debug, Clone, Copy, PartialEq, Eq, Structural)]
pub struct DirentType(pub u8);

impl DirentType {
    pub const DT_UNKNOWN: u8 = 0;
    pub const DT_DIR: u8 = 4;
    pub const DT_REG: u8 = 8;

    /// The type of an entry that is a directory, a regular file, or neither.
    pub fn from_kind(is_dir: bool, is_file: bool) -> (r: Self)
        ensures
            r.0 == (if is_dir {
                Self::DT_DIR
            } else if is_file {
                Self::DT_REG
            } else {
                Self::DT_UNKNOWN
            }),
    {
        if is_dir {
            DirentType(Self::DT_DIR)
        } else if is_file {
            DirentType(Self::DT_REG)
        } else {
            DirentType(Self::DT_UNKNOWN)
        }
    }
}

/// The fixed part of a directory entry.
#[derive(Debug, Clone, Copy)]
pub struct Dirent64Hdr {
    pub d_ino: u64,
    pub d_off: i64,
    pub d_reclen: u16,
    pub d_type: DirentType,
    pub _align: [u8; 5],
}

/// The size of [`Dirent64Hdr`] in memory.
pub const DIRENT64_HDR_SIZE: usize = 24;

/// The offset of the name in a `linux_dirent64` record.
pub const DIRENT64_NAME_OFFSET: usize = 19;

/// A directory entry as `getdents64` reports it.
#[derive(Debug, Clone)]
pub struct Dirent64 {
    pub hdr: Dirent64Hdr,
    pub name: Vec<u8>,
}

/// The bytes of a `linux_dirent64` record: inode, offset, record length and type, then the
/// name and its terminating NUL.
pub open spec fn dirent64_bytes(hdr: Dirent64Hdr, name: Seq<u8>) -> Seq<u8> {
    le_bytes(hdr.d_ino, 8) + le_bytes(hdr.d_off as u64, 8) + le_bytes(hdr.d_reclen as u64, 2)
        + seq![hdr.d_type.0] + name + seq![0u8]
}

impl Dirent64 {
    /// A directory entry named `name`; its record length counts the header, the name and the
    /// terminating NUL, the rest of `hdr` is kept.
    pub fn new(hdr: Dirent64Hdr, name: Vec<u8>) -> (r: Self)
        ensures
            r.hdr == (Dirent64Hdr {
                d_reclen: ((DIRENT64_HDR_SIZE + name@.len() + 1) % 0x1_0000) as u16,
                ..hdr
            }),
            r.name@ == name@,
    {
        let mut hdr = hdr;
        hdr.d_reclen = ((name.len() % 0x1_0000 + DIRENT64_HDR_SIZE + 1) % 0x1_0000) as u16;
        proof {
            vstd::arithmetic::div_mod::lemma_add_mod_noop(
                name@.len() as int,
                (DIRENT64_HDR_SIZE + 1) as int,
                0x1_0000,
            );
        }
        Dirent64 { hdr, name }
    }

    /// The record length.
    pub fn size(&self) -> (r: usize)
        ensures
            r == self.hdr.d_reclen as usize,
    {
        self.hdr.d_reclen as usize
    }

    /// The name.
    pub fn name(&self) -> (r: &[u8])
        ensures
            r@ == self.name@,
    {
        self.name.as_slice()
    }

    /// The bytes of the entry as a `linux_dirent64` record.
    pub fn to_bytes(&self) -> (r: Vec<u8>)
        ensures
            r@ == dirent64_bytes(self.hdr, self.name@),
    {
        let mut r: Vec<u8> = Vec::new();
        push_le(&mut r, self.hdr.d_ino, 8);
        push_le(&mut r, self.hdr.d_off as u64, 8);
        push_le(&mut r, self.hdr.d_reclen as u64, 2);
        r.push(self.hdr.d_type.0);
        let ghost head = r@;
        let mut i: usize = 0;
        while i < self.name.len()
            invariant
                i <= self.name@.len(),
                r@ == head + self.name@.take(i as int),
            decreases self.name@.len() - i,
        {
            r.push(self.name[i]);
            i = i + 1;
            assert(r@ =~= head + self.name@.take(i as int));
        }
        r.push(0);
        assert(self.name@.take(self.name@.len() as int) =~= self.name@);
        assert(r@ =~= dirent64_bytes(self.hdr, self.name@));
        r
    }
}

/// A time of a file as `statx` reports it.
#[derive(Debug, Clone, Copy, PartialEq, Eq, Structural)]
pub struct StatxTimestamp {
    pub tv_sec: i64,
    pub tv_nsec: u32,
}

impl StatxTimestamp {
    /// The same time as a [`Timespec`].
    pub fn to_timespec(self) -> (r: Timespec)
        ensures
            r == (Timespec { tv_sec: self.tv_sec, tv_nsec: self.tv_nsec as i64 }),
    {
        Timespec { tv_sec: self.tv_sec, tv_nsec: self.tv_nsec as i64 }
    }

    /// The time of a [`Timespec`], its nanoseconds cut to 32 bits.
    pub fn from_timespec(value: Timespec) -> (r: Self)
        ensures
            r == (StatxTimestamp { tv_sec: value.tv_sec, tv_nsec: value.tv_nsec as u32 }),
    {
        StatxTimestamp { tv_sec: value.tv_sec, tv_nsec: value.tv_nsec as u32 }
    }
}

/// The status of a file as `statx` reports it.
#[derive(Debug, Clone, Copy, PartialEq, Eq, Structural)]
pub struct Statx {
    pub stx_mask: u32,
    pub stx_blksize: u32,
    pub stx_attributes: u64,
    pub stx_nlink: u32,
    pub stx_uid: u32,
    pub stx_gid: u32,
    pub stx_mode: u16,
    pub stx_ino: u64,
    pub stx_size: u64,
    pub stx_blocks: u64,
    pub stx_attributes_mask: u64,
    pub stx_atime: StatxTimestamp,
    pub stx_btime: StatxTimestamp,
    pub stx_ctime: StatxTimestamp,
    pub stx_mtime: StatxTimestamp,
    pub stx_rdev_major: u32,
    pub stx_rdev_minor: u32,
    pub stx_dev_major: u32,
    pub stx_dev_minor: u32,
    pub stx_mnt_id: u64,
    pub stx_dio_mem_align: u32,
    pub stx_dio_offset_align: u32,
    pub stx_subvol: u64,
    pub stx_atomic_write_unit_min: u32,
    pub stx_atomic_write_unit_max: u32,
    pub stx_atomic_write_segments_max: u32,
    pub stx_dio_read_offset_align: u32,
}

/// The fields of a Darwin `struct stat` that the status of a file is made from.
#[derive(Debug, Clone, Copy, PartialEq, Eq, Structural)]
pub struct DarwinStat {
    pub st_dev: i32,
    pub st_mode: u16,
    pub st_nlink: u16,
    pub st_ino: u64,
    pub st_uid: u32,
    pub st_gid: u32,
    pub st_rdev: i32,
    pub st_atime: i64,
    pub st_atime_nsec: i64,
    pub st_mtime: i64,
    pub st_mtime_nsec: i64,
    pub st_ctime: i64,
    pub st_ctime_nsec: i64,
    pub st_birthtime: i64,
    pub st_birthtime_nsec: i64,
    pub st_size: i64,
    pub st_blocks: i64,
    pub st_blksize: i32,
}

impl Statx {
    /// The status that a Darwin `struct stat` describes: the device numbers go to the major
    /// numbers, the birth time to `stx_btime`, and what Darwin does not report is zero.
    pub fn from_apple(stat: DarwinStat) -> (r: Self)
        ensures
            r == (Statx {
                stx_mask: 0,
                stx_blksize: stat.st_blksize as u32,
                stx_attributes: 0,
                stx_nlink: stat.st_nlink as u32,
                stx_uid: stat.st_uid,
                stx_gid: stat.st_gid,
                stx_mode: stat.st_mode,
                stx_ino: stat.st_ino,
                stx_size: stat.st_size as u64,
                stx_blocks: stat.st_blocks as u64,
                stx_attributes_mask: 0,
                stx_atime: StatxTimestamp { tv_sec: stat.st_atime, tv_nsec: stat.st_atime_nsec as u32 },
                stx_btime: StatxTimestamp {
                    tv_sec: stat.st_birthtime,
                    tv_nsec: stat.st_birthtime_nsec as u32,
                },
                stx_ctime: StatxTimestamp { tv_sec: stat.st_ctime, tv_nsec: stat.st_ctime_nsec as u32 },
                stx_mtime: StatxTimestamp { tv_sec: stat.st_mtime, tv_nsec: stat.st_mtime_nsec as u32 },
                stx_rdev_major: stat.st_rdev as u32,
                stx_rdev_minor: 0,
                stx_dev_major: stat.st_dev as u32,
                stx_dev_minor: 0,
                stx_mnt_id: 0,
                stx_dio_mem_align: 0,
                stx_dio_offset_align: 0,
                stx_subvol: 0,
                stx_atomic_write_unit_min: 0,
                stx_atomic_write_unit_max: 0,
                stx_atomic_write_segments_max: 0,
                stx_dio_read_offset_align: 0,
            }),
    {
        Statx {
            stx_mask: 0,
            stx_blksize: stat.st_blksize as u32,
            stx_attributes: 0,
            stx_nlink: stat.st_nlink as u32,
            stx_uid: stat.st_uid,
            stx_gid: stat.st_gid,
            stx_mode: stat.st_mode,
            stx_ino: stat.st_ino,
            stx_size: stat.st_size as u64,
            stx_blocks: stat.st_blocks as u64,
            stx_attributes_mask: 0,
            stx_atime: StatxTimestamp { tv_sec: stat.st_atime, tv_nsec: stat.st_atime_nsec as u32 },
            stx_btime: StatxTimestamp {
                tv_sec: stat.st_birthtime,
                tv_nsec: stat.st_birthtime_nsec as u32,
            },
            stx_ctime: StatxTimestamp { tv_sec: stat.st_ctime, tv_nsec: stat.st_ctime_nsec as u32 },
            stx_mtime: StatxTimestamp { tv_sec: stat.st_mtime, tv_nsec: stat.st_mtime_nsec as u32 },
            stx_rdev_major: stat.st_rdev as u32,
            stx_rdev_minor: 0,
            stx_dev_major: stat.st_dev as u32,
            stx_dev_minor: 0,
            stx_mnt_id: 0,
            stx_dio_mem_align: 0,
            stx_dio_offset_align: 0,
            stx_subvol: 0,
            stx_atomic_write_unit_min: 0,
            stx_atomic_write_unit_max: 0,
            stx_atomic_write_segments_max: 0,
            stx_dio_read_offset_align: 0,
        }
    }
}

/// The status of a file as `stat` reports it.
#[derive(Debug, Clone, Copy)]
pub struct Stat {
    pub st_dev: u64,
    pub st_ino: u64,
    pub st_nlink: u64,
    pub st_mode: u32,
    pub st_uid: u32,
    pub st_gid: u32,
    pub _pad0: u32,
    pub st_rdev: u64,
    pub st_size: i64,
    pub st_blksize: i64,
    pub st_blocks: i64,
    pub st_atime: i64,
    pub st_atimensec: u64,
    pub st_mtime: i64,
    pub st_mtimensec: u64,
    pub st_ctime: i64,
    pub st_ctimensec: u64,
    pub _unused: [i64; 3],
}

impl Stat {
    /// The `stat` view of a `statx` status: the major device numbers become the device numbers.
    pub fn from_statx(val: Statx) -> (r: Self)
        ensures
            r.st_dev == val.stx_dev_major as u64,
            r.st_ino == val.stx_ino,
            r.st_nlink == val.stx_nlink as u64,
            r.st_mode == val.stx_mode as u32,
            r.st_uid == val.stx_uid,
            r.st_gid == val.stx_gid,
            r._pad0 == 0,
            r.st_rdev == val.stx_rdev_major as u64,
            r.st_size == val.stx_size as i64,
            r.st_blksize == val.stx_blksize as i64,
            r.st_blocks == val.stx_blocks as i64,
            r.st_atime == val.stx_atime.tv_sec,
            r.st_atimensec == val.stx_atime.tv_nsec as u64,
            r.st_mtime == val.stx_mtime.tv_sec,
            r.st_mtimensec == val.stx_mtime.tv_nsec as u64,
            r.st_ctime == val.stx_ctime.tv_sec,
            r.st_ctimensec == val.stx_ctime.tv_nsec as u64,
            r._unused@ == seq![0i64, 0i64, 0i64],
    {
        let r = Stat {
            st_dev: val.stx_dev_major as u64,
            st_ino: val.stx_ino,
            st_nlink: val.stx_nlink as u64,
            st_mode: val.stx_mode as u32,
            st_uid: val.stx_uid,
            st_gid: val.stx_gid,
            _pad0: 0,
            st_rdev: val.stx_rdev_major as u64,
            st_size: val.stx_size as i64,
            st_blksize: val.stx_blksize as i64,
            st_blocks: val.stx_blocks as i64,
            st_atime: val.stx_atime.tv_sec,
            st_atimensec: val.stx_atime.tv_nsec as u64,
            st_mtime: val.stx_mtime.tv_sec,
            st_mtimensec: val.stx_mtime.tv_nsec as u64,
            st_ctime: val.stx_ctime.tv_sec,
            st_ctimensec: val.stx_ctime.tv_nsec as u64,
            _unused: [0, 0, 0],
        };
        assert(r._unused@ =~= seq![0i64, 0i64, 0i64]);
        r
    }
}

/// Each flag of `open` has Darwin bits of its own, below bit 31.
proof fn lemma_open_table()
    ensures
        apple_disjoint(OpenFlags::table()),
        forall|j: int|
            0 <= j < OpenFlags::table().len() ==> #[trigger] OpenFlags::table()[j].1 & 0xffff_ffff_8000_0000u64 == 0,
{
    let t = OpenFlags::table();
    assert(t[0].1 == 0x0u64);
    assert(t[1].1 == 0x1u64);
    assert(t[2].1 == 0x2u64);
    assert(t[3].1 == 0x200u64);
    assert(t[4].1 == 0x800u64);
    assert(t[5].1 == 0x20000u64);
    assert(t[6].1 == 0x400u64);
    assert(t[7].1 == 0x4u64);
    assert(t[8].1 == 0x400000u64);
    assert(t[9].1 == 0x40u64);
    assert(t[10].1 == 0x100000u64);
    assert(t[11].1 == 0x100u64);
    assert(t[12].1 == 0x1000000u64);
    assert(t[13].1 == 0x80u64);
    assert(0x0u64 & 0x1u64 == 0 && 0x0u64 & 0x2u64 == 0 && 0x0u64 & 0x200u64 == 0 && 0x0u64 & 0x800u64 == 0 && 0x0u64 & 0x20000u64 == 0 && 0x0u64 & 0x400u64 == 0 && 0x0u64 & 0x4u64 == 0 && 0x0u64 & 0x400000u64 == 0 && 0x0u64 & 0x40u64 == 0 && 0x0u64 & 0x100000u64 == 0 && 0x0u64 & 0x100u64 == 0 && 0x0u64 & 0x1000000u64 == 0 && 0x0u64 & 0x80u64 == 0 && 0x1u64 & 0x2u64 == 0 && 0x1u64 & 0x200u64 == 0 && 0x1u64 & 0x800u64 == 0 && 0x1u64 & 0x20000u64 == 0 && 0x1u64 & 0x400u64 == 0 && 0x1u64 & 0x4u64 == 0 && 0x1u64 & 0x400000u64 == 0 && 0x1u64 & 0x40u64 == 0 && 0x1u64 & 0x100000u64 == 0 && 0x1u64 & 0x100u64 == 0 && 0x1u64 & 0x1000000u64 == 0 && 0x1u64 & 0x80u64 == 0 && 0x2u64 & 0x200u64 == 0 && 0x2u64 & 0x800u64 == 0 && 0x2u64 & 0x20000u64 == 0 && 0x2u64 & 0x400u64 == 0 && 0x2u64 & 0x4u64 == 0 && 0x2u64 & 0x400000u64 == 0 && 0x2u64 & 0x40u64 == 0 && 0x2u64 & 0x100000u64 == 0 && 0x2u64 & 0x100u64 == 0 && 0x2u64 & 0x1000000u64 == 0 && 0x2u64 & 0x80u64 == 0 && 0x200u64 & 0x800u64 == 0 && 0x200u64 & 0x20000u64 == 0 && 0x200u64 & 0x400u64 == 0 && 0x200u64 & 0x4u64 == 0 && 0x200u64 & 0x400000u64 == 0 && 0x200u64 & 0x40u64 == 0 && 0x200u64 & 0x100000u64 == 0 && 0x200u64 & 0x100u64 == 0 && 0x200u64 & 0x1000000u64 == 0 && 0x200u64 & 0x80u64 == 0 && 0x800u64 & 0x20000u64 == 0 && 0x800u64 & 0x400u64 == 0 && 0x800u64 & 0x4u64 == 0 && 0x800u64 & 0x400000u64 == 0 && 0x800u64 & 0x40u64 == 0 && 0x800u64 & 0x100000u64 == 0 && 0x800u64 & 0x100u64 == 0 && 0x800u64 & 0x1000000u64 == 0 && 0x800u64 & 0x80u64 == 0 && 0x20000u64 & 0x400u64 == 0 && 0x20000u64 & 0x4u64 == 0 && 0x20000u64 & 0x400000u64 == 0 && 0x20000u64 & 0x40u64 == 0 && 0x20000u64 & 0x100000u64 == 0 && 0x20000u64 & 0x100u64 == 0 && 0x20000u64 & 0x1000000u64 == 0 && 0x20000u64 & 0x80u64 == 0 && 0x400u64 & 0x4u64 == 0 && 0x400u64 & 0x400000u64 == 0 && 0x400u64 & 0x40u64 == 0 && 0x400u64 & 0x100000u64 == 0 && 0x400u64 & 0x100u64 == 0 && 0x400u64 & 0x1000000u64 == 0 && 0x400u64 & 0x80u64 == 0 && 0x4u64 & 0x400000u64 == 0 && 0x4u64 & 0x40u64 == 0 && 0x4u64 & 0x100000u64 == 0 && 0x4u64 & 0x100u64 == 0 && 0x4u64 & 0x1000000u64 == 0 && 0x4u64 & 0x80u64 == 0 && 0x400000u64 & 0x40u64 == 0 && 0x400000u64 & 0x100000u64 == 0 && 0x400000u64 & 0x100u64 == 0 && 0x400000u64 & 0x1000000u64 == 0 && 0x400000u64 & 0x80u64 == 0 && 0x40u64 & 0x100000u64 == 0 && 0x40u64 & 0x100u64 == 0 && 0x40u64 & 0x1000000u64 == 0 && 0x40u64 & 0x80u64 == 0 && 0x100000u64 & 0x100u64 == 0 && 0x100000u64 & 0x1000000u64 == 0 && 0x100000u64 & 0x80u64 == 0 && 0x100u64 & 0x1000000u64 == 0 && 0x100u64 & 0x80u64 == 0 && 0x1000000u64 & 0x80u64 == 0 && 0x0u64 & 0xffffffff80000000u64 == 0 && 0x1u64 & 0xffffffff80000000u64 == 0 && 0x2u64 & 0xffffffff80000000u64 == 0 && 0x200u64 & 0xffffffff80000000u64 == 0 && 0x800u64 & 0xffffffff80000000u64 == 0 && 0x20000u64 & 0xffffffff80000000u64 == 0 && 0x400u64 & 0xffffffff80000000u64 == 0 && 0x4u64 & 0xffffffff80000000u64 == 0 && 0x400000u64 & 0xffffffff80000000u64 == 0 && 0x40u64 & 0xffffffff80000000u64 == 0 && 0x100000u64 & 0xffffffff80000000u64 == 0 && 0x100u64 & 0xffffffff80000000u64 == 0 && 0x1000000u64 & 0xffffffff80000000u64 == 0 && 0x80u64 & 0xffffffff80000000u64 == 0) by (bit_vector);
    assert forall|i: int, j: int| 0 <= i < j < t.len() implies #[trigger] t[i].1 & #[trigger] t[j].1 == 0 by {
    }
    assert forall|j: int| 0 <= j < t.len() implies #[trigger] t[j].1 & 0xffff_ffff_8000_0000u64 == 0 by {
    }
}

/// The open flags that Darwin knows come back unchanged from a trip to Darwin and back.
pub proof fn lemma_open_flags_round_trip(flags: u32)
    ensures
        flags_from_apple(OpenFlags::table(), (flags_to_apple(OpenFlags::table(), flags as u64) as i32) as u64)
            == flags_known(OpenFlags::table(), flags as u64),
{
    lemma_open_table();
    lemma_flags_round_trip(OpenFlags::table(), flags as u64);
    lemma_to_apple_fits_i32(OpenFlags::table(), flags as u64);
}

/// Darwin `O_WRONLY`.
pub const APPLE_O_WRONLY: u64 = 0x1;
/// Darwin `O_RDWR`.
pub const APPLE_O_RDWR: u64 = 0x2;
/// Darwin `O_CREAT`.
pub const APPLE_O_CREAT: u64 = 0x200;
/// Darwin `O_EXCL`.
pub const APPLE_O_EXCL: u64 = 0x800;
/// Darwin `O_NOCTTY`.
pub const APPLE_O_NOCTTY: u64 = 0x20000;
/// Darwin `O_TRUNC`.
pub const APPLE_O_TRUNC: u64 = 0x400;
/// Darwin `O_NONBLOCK`.
pub const APPLE_O_NONBLOCK: u64 = 0x4;
/// Darwin `O_DSYNC`.
pub const APPLE_O_DSYNC: u64 = 0x400000;
/// Darwin `O_ASYNC`.
pub const APPLE_O_ASYNC: u64 = 0x40;
/// Darwin `O_DIRECTORY`.
pub const APPLE_O_DIRECTORY: u64 = 0x100000;
/// Darwin `O_NOFOLLOW`.
pub const APPLE_O_NOFOLLOW: u64 = 0x100;
/// Darwin `O_CLOEXEC`.
pub const APPLE_O_CLOEXEC: u64 = 0x1000000;
/// Darwin `O_SYNC`.
pub const APPLE_O_SYNC: u64 = 0x80;

/// Each flag of `open` becomes the Darwin flag of the same name, and each Darwin flag is read back
/// as the Linux flag of its name. (Linux `O_SYNC` holds the `O_DSYNC` bit, so it is only read
/// back here; `O_RDONLY` has no bits on either side.)
pub proof fn lemma_open_flags_by_name()
    ensures
        flags_to_apple(OpenFlags::table(), OpenFlags::O_RDONLY as u64) == 0,
        flags_to_apple(OpenFlags::table(), OpenFlags::O_WRONLY as u64) == APPLE_O_WRONLY,
        flags_to_apple(OpenFlags::table(), OpenFlags::O_RDWR as u64) == APPLE_O_RDWR,
        flags_to_apple(OpenFlags::table(), OpenFlags::O_CREAT as u64) == APPLE_O_CREAT,
        flags_to_apple(OpenFlags::table(), OpenFlags::O_EXCL as u64) == APPLE_O_EXCL,
        flags_to_apple(OpenFlags::table(), OpenFlags::O_NOCTTY as u64) == APPLE_O_NOCTTY,
        flags_to_apple(OpenFlags::table(), OpenFlags::O_TRUNC as u64) == APPLE_O_TRUNC,
        flags_to_apple(OpenFlags::table(), OpenFlags::O_NONBLOCK as u64) == APPLE_O_NONBLOCK,
        flags_to_apple(OpenFlags::table(), OpenFlags::O_DSYNC as u64) == APPLE_O_DSYNC,
        flags_to_apple(OpenFlags::table(), OpenFlags::O_ASYNC as u64) == APPLE_O_ASYNC,
        flags_to_apple(OpenFlags::table(), OpenFlags::O_DIRECTORY as u64) == APPLE_O_DIRECTORY,
        flags_to_apple(OpenFlags::table(), OpenFlags::O_NOFOLLOW as u64) == APPLE_O_NOFOLLOW,
        flags_to_apple(OpenFlags::table(), OpenFlags::O_CLOEXEC as u64) == APPLE_O_CLOEXEC,
        flags_from_apple(OpenFlags::table(), APPLE_O_WRONLY) == OpenFlags::O_WRONLY as u64,
        flags_from_apple(OpenFlags::table(), APPLE_O_RDWR) == OpenFlags::O_RDWR as u64,
        flags_from_apple(OpenFlags::table(), APPLE_O_CREAT) == OpenFlags::O_CREAT as u64,
        flags_from_apple(OpenFlags::table(), APPLE_O_EXCL) == OpenFlags::O_EXCL as u64,
        flags_from_apple(OpenFlags::table(), APPLE_O_NOCTTY) == OpenFlags::O_NOCTTY as u64,
        flags_from_apple(OpenFlags::table(), APPLE_O_TRUNC) == OpenFlags::O_TRUNC as u64,
        flags_from_apple(OpenFlags::table(), APPLE_O_NONBLOCK) == OpenFlags::O_NONBLOCK as u64,
        flags_from_apple(OpenFlags::table(), APPLE_O_DSYNC) == OpenFlags::O_DSYNC as u64,
        flags_from_apple(OpenFlags::table(), APPLE_O_ASYNC) == OpenFlags::O_ASYNC as u64,
        flags_from_apple(OpenFlags::table(), APPLE_O_DIRECTORY) == OpenFlags::O_DIRECTORY as u64,
        flags_from_apple(OpenFlags::table(), APPLE_O_NOFOLLOW) == OpenFlags::O_NOFOLLOW as u64,
        flags_from_apple(OpenFlags::table(), APPLE_O_CLOEXEC) == OpenFlags::O_CLOEXEC as u64,
        flags_from_apple(OpenFlags::table(), APPLE_O_SYNC) == OpenFlags::O_SYNC as u64,
{
    let t = OpenFlags::table();
    lemma_open_table();
    assert(t[0] == (0x0u64, 0x0u64));
    assert(t[1] == (0x1u64, 0x1u64));
    assert(t[2] == (0x2u64, 0x2u64));
    assert(t[3] == (0x40u64, 0x200u64));
    assert(t[4] == (0x80u64, 0x800u64));
    assert(t[5] == (0x100u64, 0x20000u64));
    assert(t[6] == (0x200u64, 0x400u64));
    assert(t[7] == (0x800u64, 0x4u64));
    assert(t[8] == (0x1000u64, 0x400000u64));
    assert(t[9] == (0x2000u64, 0x40u64));
    assert(t[10] == (0x10000u64, 0x100000u64));
    assert(t[11] == (0x20000u64, 0x100u64));
    assert(t[12] == (0x80000u64, 0x1000000u64));
    assert(t[13] == (0x101000u64, 0x80u64));
    assert(0x1u64 & 0x1u64 == 0x1u64 && 0x1u64 & 0x2u64 != 0x2u64 && 0x1u64 & 0x40u64 != 0x40u64 && 0x1u64 & 0x80u64 != 0x80u64 && 0x1u64 & 0x100u64 != 0x100u64 && 0x1u64 & 0x200u64 != 0x200u64 && 0x1u64 & 0x800u64 != 0x800u64 && 0x1u64 & 0x1000u64 != 0x1000u64 && 0x1u64 & 0x2000u64 != 0x2000u64 && 0x1u64 & 0x10000u64 != 0x10000u64 && 0x1u64 & 0x20000u64 != 0x20000u64 && 0x1u64 & 0x80000u64 != 0x80000u64 && 0x1u64 & 0x101000u64 != 0x101000u64 && 0x2u64 & 0x2u64 == 0x2u64 && 0x2u64 & 0x1u64 != 0x1u64 && 0x2u64 & 0x40u64 != 0x40u64 && 0x2u64 & 0x80u64 != 0x80u64 && 0x2u64 & 0x100u64 != 0x100u64 && 0x2u64 & 0x200u64 != 0x200u64 && 0x2u64 & 0x800u64 != 0x800u64 && 0x2u64 & 0x1000u64 != 0x1000u64 && 0x2u64 & 0x2000u64 != 0x2000u64 && 0x2u64 & 0x10000u64 != 0x10000u64 && 0x2u64 & 0x20000u64 != 0x20000u64 && 0x2u64 & 0x80000u64 != 0x80000u64 && 0x2u64 & 0x101000u64 != 0x101000u64 && 0x40u64 & 0x40u64 == 0x40u64 && 0x40u64 & 0x1u64 != 0x1u64 && 0x40u64 & 0x2u64 != 0x2u64 && 0x40u64 & 0x80u64 != 0x80u64 && 0x40u64 & 0x100u64 != 0x100u64 && 0x40u64 & 0x200u64 != 0x200u64 && 0x40u64 & 0x800u64 != 0x800u64 && 0x40u64 & 0x1000u64 != 0x1000u64 && 0x40u64 & 0x2000u64 != 0x2000u64 && 0x40u64 & 0x10000u64 != 0x10000u64 && 0x40u64 & 0x20000u64 != 0x20000u64 && 0x40u64 & 0x80000u64 != 0x80000u64 && 0x40u64 & 0x101000u64 != 0x101000u64 && 0x80u64 & 0x80u64 == 0x80u64 && 0x80u64 & 0x1u64 != 0x1u64 && 0x80u64 & 0x2u64 != 0x2u64 && 0x80u64 & 0x40u64 != 0x40u64 && 0x80u64 & 0x100u64 != 0x100u64 && 0x80u64 & 0x200u64 != 0x200u64 && 0x80u64 & 0x800u64 != 0x800u64 && 0x80u64 & 0x1000u64 != 0x1000u64 && 0x80u64 & 0x2000u64 != 0x2000u64 && 0x80u64 & 0x10000u64 != 0x10000u64 && 0x80u64 & 0x20000u64 != 0x20000u64 && 0x80u64 & 0x80000u64 != 0x80000u64 && 0x80u64 & 0x101000u64 != 0x101000u64 && 0x100u64 & 0x100u64 == 0x100u64 && 0x100u64 & 0x1u64 != 0x1u64 && 0x100u64 & 0x2u64 != 0x2u64 && 0x100u64 & 0x40u64 != 0x40u64 && 0x100u64 & 0x80u64 != 0x80u64 && 0x100u64 & 0x200u64 != 0x200u64 && 0x100u64 & 0x800u64 != 0x800u64 && 0x100u64 & 0x1000u64 != 0x1000u64 && 0x100u64 & 0x2000u64 != 0x2000u64 && 0x100u64 & 0x10000u64 != 0x10000u64 && 0x100u64 & 0x20000u64 != 0x20000u64 && 0x100u64 & 0x80000u64 != 0x80000u64 && 0x100u64 & 0x101000u64 != 0x101000u64 && 0x200u64 & 0x200u64 == 0x200u64 && 0x200u64 & 0x1u64 != 0x1u64 && 0x200u64 & 0x2u64 != 0x2u64 && 0x200u64 & 0x40u64 != 0x40u64 && 0x200u64 & 0x80u64 != 0x80u64 && 0x200u64 & 0x100u64 != 0x100u64 && 0x200u64 & 0x800u64 != 0x800u64 && 0x200u64 & 0x1000u64 != 0x1000u64 && 0x200u64 & 0x2000u64 != 0x2000u64 && 0x200u64 & 0x10000u64 != 0x10000u64 && 0x200u64 & 0x20000u64 != 0x20000u64 && 0x200u64 & 0x80000u64 != 0x80000u64 && 0x200u64 & 0x101000u64 != 0x101000u64 && 0x800u64 & 0x800u64 == 0x800u64 && 0x800u64 & 0x1u64 != 0x1u64 && 0x800u64 & 0x2u64 != 0x2u64 && 0x800u64 & 0x40u64 != 0x40u64 && 0x800u64 & 0x80u64 != 0x80u64 && 0x800u64 & 0x100u64 != 0x100u64 && 0x800u64 & 0x200u64 != 0x200u64 && 0x800u64 & 0x1000u64 != 0x1000u64 && 0x800u64 & 0x2000u64 != 0x2000u64 && 0x800u64 & 0x10000u64 != 0x10000u64 && 0x800u64 & 0x20000u64 != 0x20000u64 && 0x800u64 & 0x80000u64 != 0x80000u64 && 0x800u64 & 0x101000u64 != 0x101000u64 && 0x1000u64 & 0x1000u64 == 0x1000u64 && 0x1000u64 & 0x1u64 != 0x1u64 && 0x1000u64 & 0x2u64 != 0x2u64 && 0x1000u64 & 0x40u64 != 0x40u64 && 0x1000u64 & 0x80u64 != 0x80u64 && 0x1000u64 & 0x100u64 != 0x100u64 && 0x1000u64 & 0x200u64 != 0x200u64 && 0x1000u64 & 0x800u64 != 0x800u64 && 0x1000u64 & 0x2000u64 != 0x2000u64 && 0x1000u64 & 0x10000u64 != 0x10000u64 && 0x1000u64 & 0x20000u64 != 0x20000u64 && 0x1000u64 & 0x80000u64 != 0x80000u64 && 0x1000u64 & 0x101000u64 != 0x101000u64 && 0x2000u64 & 0x2000u64 == 0x2000u64 && 0x2000u64 & 0x1u64 != 0x1u64 && 0x2000u64 & 0x2u64 != 0x2u64 && 0x2000u64 & 0x40u64 != 0x40u64 && 0x2000u64 & 0x80u64 != 0x80u64 && 0x2000u64 & 0x100u64 != 0x100u64 && 0x2000u64 & 0x200u64 != 0x200u64 && 0x2000u64 & 0x800u64 != 0x800u64 && 0x2000u64 & 0x1000u64 != 0x1000u64 && 0x2000u64 & 0x10000u64 != 0x10000u64 && 0x2000u64 & 0x20000u64 != 0x20000u64 && 0x2000u64 & 0x80000u64 != 0x80000u64 && 0x2000u64 & 0x101000u64 != 0x101000u64 && 0x10000u64 & 0x10000u64 == 0x10000u64 && 0x10000u64 & 0x1u64 != 0x1u64 && 0x10000u64 & 0x2u64 != 0x2u64 && 0x10000u64 & 0x40u64 != 0x40u64 && 0x10000u64 & 0x80u64 != 0x80u64 && 0x10000u64 & 0x100u64 != 0x100u64 && 0x10000u64 & 0x200u64 != 0x200u64 && 0x10000u64 & 0x800u64 != 0x800u64 && 0x10000u64 & 0x1000u64 != 0x1000u64 && 0x10000u64 & 0x2000u64 != 0x2000u64 && 0x10000u64 & 0x20000u64 != 0x20000u64 && 0x10000u64 & 0x80000u64 != 0x80000u64 && 0x10000u64 & 0x101000u64 != 0x101000u64 && 0x20000u64 & 0x20000u64 == 0x20000u64 && 0x20000u64 & 0x1u64 != 0x1u64 && 0x20000u64 & 0x2u64 != 0x2u64 && 0x20000u64 & 0x40u64 != 0x40u64 && 0x20000u64 & 0x80u64 != 0x80u64 && 0x20000u64 & 0x100u64 != 0x100u64 && 0x20000u64 & 0x200u64 != 0x200u64 && 0x20000u64 & 0x800u64 != 0x800u64 && 0x20000u64 & 0x1000u64 != 0x1000u64 && 0x20000u64 & 0x2000u64 != 0x2000u64 && 0x20000u64 & 0x10000u64 != 0x10000u64 && 0x20000u64 & 0x80000u64 != 0x80000u64 && 0x20000u64 & 0x101000u64 != 0x101000u64 && 0x80000u64 & 0x80000u64 == 0x80000u64 && 0x80000u64 & 0x1u64 != 0x1u64 && 0x80000u64 & 0x2u64 != 0x2u64 && 0x80000u64 & 0x40u64 != 0x40u64 && 0x80000u64 & 0x80u64 != 0x80u64 && 0x80000u64 & 0x100u64 != 0x100u64 && 0x80000u64 & 0x200u64 != 0x200u64 && 0x80000u64 & 0x800u64 != 0x800u64 && 0x80000u64 & 0x1000u64 != 0x1000u64 && 0x80000u64 & 0x2000u64 != 0x2000u64 && 0x80000u64 & 0x10000u64 != 0x10000u64 && 0x80000u64 & 0x20000u64 != 0x20000u64 && 0x80000u64 & 0x101000u64 != 0x101000u64 && 0x1u64 != 0 && 0x2u64 != 0 && 0x200u64 != 0 && 0x800u64 != 0 && 0x20000u64 != 0 && 0x400u64 != 0 && 0x4u64 != 0 && 0x400000u64 != 0 && 0x40u64 != 0 && 0x100000u64 != 0 && 0x100u64 != 0 && 0x1000000u64 != 0 && 0x80u64 != 0) by (bit_vector);
    assert(0u64 & 0x1u64 != 0x1u64 && 0u64 & 0x2u64 != 0x2u64 && 0u64 & 0x40u64 != 0x40u64 && 0u64 & 0x80u64 != 0x80u64 && 0u64 & 0x100u64 != 0x100u64 && 0u64 & 0x200u64 != 0x200u64 && 0u64 & 0x800u64 != 0x800u64 && 0u64 & 0x1000u64 != 0x1000u64 && 0u64 & 0x2000u64 != 0x2000u64 && 0u64 & 0x10000u64 != 0x10000u64 && 0u64 & 0x20000u64 != 0x20000u64 && 0u64 & 0x80000u64 != 0x80000u64 && 0u64 & 0x101000u64 != 0x101000u64) by (bit_vector);
    lemma_to_apple_nothing(t, OpenFlags::O_RDONLY as u64);
    lemma_to_apple_entry(t, OpenFlags::O_WRONLY as u64, 1);
    lemma_from_apple_entry(t, 1);
    lemma_to_apple_entry(t, OpenFlags::O_RDWR as u64, 2);
    lemma_from_apple_entry(t, 2);
    lemma_to_apple_entry(t, OpenFlags::O_CREAT as u64, 3);
    lemma_from_apple_entry(t, 3);
    lemma_to_apple_entry(t, OpenFlags::O_EXCL as u64, 4);
    lemma_from_apple_entry(t, 4);
    lemma_to_apple_entry(t, OpenFlags::O_NOCTTY as u64, 5);
    lemma_from_apple_entry(t, 5);
    lemma_to_apple_entry(t, OpenFlags::O_TRUNC as u64, 6);
    lemma_from_apple_entry(t, 6);
    lemma_to_apple_entry(t, OpenFlags::O_NONBLOCK as u64, 7);
    lemma_from_apple_entry(t, 7);
    lemma_to_apple_entry(t, OpenFlags::O_DSYNC as u64, 8);
    lemma_from_apple_entry(t, 8);
    lemma_to_apple_entry(t, OpenFlags::O_ASYNC as u64, 9);
    lemma_from_apple_entry(t, 9);
    lemma_to_apple_entry(t, OpenFlags::O_DIRECTORY as u64, 10);
    lemma_from_apple_entry(t, 10);
    lemma_to_apple_entry(t, OpenFlags::O_NOFOLLOW as u64, 11);
    lemma_from_apple_entry(t, 11);
    lemma_to_apple_entry(t, OpenFlags::O_CLOEXEC as u64, 12);
    lemma_from_apple_entry(t, 12);
    lemma_from_apple_entry(t, 13);
}

/// Darwin `R_OK`.
pub const APPLE_R_OK: u64 = 0x4;
/// Darwin `W_OK`.
pub const APPLE_W_OK: u64 = 0x2;
/// Darwin `X_OK`.
pub const APPLE_X_OK: u64 = 0x1;

/// Each access check becomes the Darwin check of the same name, and each Darwin check is read back
/// as the Linux check of its name.
pub proof fn lemma_access_flags_by_name()
    ensures
        flags_to_apple(AccessFlags::table(), AccessFlags::R_OK as u64) == APPLE_R_OK,
        flags_to_apple(AccessFlags::table(), AccessFlags::W_OK as u64) == APPLE_W_OK,
        flags_to_apple(AccessFlags::table(), AccessFlags::X_OK as u64) == APPLE_X_OK,
        flags_from_apple(AccessFlags::table(), APPLE_R_OK) == AccessFlags::R_OK as u64,
        flags_from_apple(AccessFlags::table(), APPLE_W_OK) == AccessFlags::W_OK as u64,
        flags_from_apple(AccessFlags::table(), APPLE_X_OK) == AccessFlags::X_OK as u64,
{
    let t = AccessFlags::table();
    assert(t[0] == (0x0u64, 0x0u64));
    assert(t[1] == (0x4u64, 0x4u64));
    assert(t[2] == (0x2u64, 0x2u64));
    assert(t[3] == (0x1u64, 0x1u64));
    assert(0x4u64 & 0x4u64 == 0x4u64 && 0x4u64 & 0x2u64 != 0x2u64 && 0x4u64 & 0x1u64 != 0x1u64 && 0x2u64 & 0x2u64 == 0x2u64 && 0x2u64 & 0x4u64 != 0x4u64 && 0x2u64 & 0x1u64 != 0x1u64 && 0x1u64 & 0x1u64 == 0x1u64 && 0x1u64 & 0x4u64 != 0x4u64 && 0x1u64 & 0x2u64 != 0x2u64 && 0x0u64 & 0x4u64 == 0 && 0x0u64 & 0x2u64 == 0 && 0x0u64 & 0x1u64 == 0 && 0x4u64 & 0x2u64 == 0 && 0x4u64 & 0x1u64 == 0 && 0x2u64 & 0x1u64 == 0 && 0x4u64 != 0 && 0x2u64 != 0 && 0x1u64 != 0) by (bit_vector);
    assert forall|i: int, j: int| 0 <= i < j < t.len() implies #[trigger] t[i].1 & #[trigger] t[j].1 == 0 by {
    }
    assert(apple_disjoint(t));
    lemma_to_apple_entry(t, AccessFlags::R_OK as u64, 1);
    lemma_from_apple_entry(t, 1);
    lemma_to_apple_entry(t, AccessFlags::W_OK as u64, 2);
    lemma_from_apple_entry(t, 2);
    lemma_to_apple_entry(t, AccessFlags::X_OK as u64, 3);
    lemma_from_apple_entry(t, 3);
}

} // verus!
