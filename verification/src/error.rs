//! Linux error numbers and their Darwin counterparts.

use crate::{FromApple, ToApple};
use vstd::prelude::*;

verus! {

/// A Linux error number.
#[derive(Debug, Clone, Copy, PartialEq, Eq, Structural)]
pub struct LxError(pub u32);

impl LxError {
    pub const EPERM: u32 = 1;
    pub const ENOENT: u32 = 2;
    pub const ESRCH: u32 = 3;
    pub const EINTR: u32 = 4;
    pub const EIO: u32 = 5;
    pub const ENOEXEC: u32 = 8;
    pub const EBADF: u32 = 9;
    pub const ECHILD: u32 = 10;
    pub const EAGAIN: u32 = 11;
    pub const ENOMEM: u32 = 12;
    pub const EACCES: u32 = 13;
    pub const EFAULT: u32 = 14;
    pub const EBUSY: u32 = 16;
    pub const EEXIST: u32 = 17;
    pub const EXDEV: u32 = 18;
    pub const ENOTDIR: u32 = 20;
    pub const EISDIR: u32 = 21;
    pub const EINVAL: u32 = 22;
    pub const EMFILE: u32 = 24;
    pub const ENOTTY: u32 = 25;
    pub const ETXTBSY: u32 = 26;
    pub const ENOSPC: u32 = 28;
    pub const ESPIPE: u32 = 29;
    pub const EROFS: u32 = 30;
    pub const EPIPE: u32 = 32;
    pub const ERANGE: u32 = 34;
    pub const ENOSYS: u32 = 38;
    pub const ENOTEMPTY: u32 = 39;
    pub const ELOOP: u32 = 40;
    pub const ENOTSOCK: u32 = 88;
    pub const EPROTOTYPE: u32 = 91;
    pub const EOPNOTSUPP: u32 = 95;
    pub const EAFNOSUPPORT: u32 = 97;
    pub const EADDRINUSE: u32 = 98;
    pub const EADDRNOTAVAIL: u32 = 99;
    pub const ENETDOWN: u32 = 100;
    pub const ENETUNREACH: u32 = 101;
    pub const ECONNRESET: u32 = 104;
    pub const ENOBUFS: u32 = 105;
    pub const EISCONN: u32 = 106;
    pub const ETIMEDOUT: u32 = 110;
    pub const ECONNREFUSED: u32 = 111;
    pub const EHOSTUNREACH: u32 = 113;
    pub const EALREADY: u32 = 114;
    pub const EINPROGRESS: u32 = 115;
    pub const EBADFD: u32 = 77;

    /// The Darwin value that the Linux value `linux` stands for, if Darwin has one.
    pub open spec fn apple_of(linux: u32) -> Option<i32> {
        match linux {
            1 => Some(1i32),
            2 => Some(2i32),
            3 => Some(3i32),
            4 => Some(4i32),
            5 => Some(5i32),
            8 => Some(8i32),
            9 => Some(9i32),
            10 => Some(10i32),
            11 => Some(35i32),
            12 => Some(12i32),
            13 => Some(13i32),
            14 => Some(14i32),
            16 => Some(16i32),
            17 => Some(17i32),
            18 => Some(18i32),
            20 => Some(20i32),
            21 => Some(21i32),
            22 => Some(22i32),
            24 => Some(24i32),
            25 => Some(25i32),
            26 => Some(26i32),
            28 => Some(28i32),
            29 => Some(29i32),
            30 => Some(30i32),
            32 => Some(32i32),
            34 => Some(34i32),
            38 => Some(78i32),
            39 => Some(66i32),
            40 => Some(62i32),
            88 => Some(38i32),
            91 => Some(41i32),
            95 => Some(102i32),
            97 => Some(47i32),
            98 => Some(48i32),
            99 => Some(49i32),
            100 => Some(50i32),
            101 => Some(51i32),
            104 => Some(54i32),
            105 => Some(55i32),
            106 => Some(56i32),
            110 => Some(60i32),
            111 => Some(61i32),
            113 => Some(65i32),
            114 => Some(37i32),
            115 => Some(36i32),
            _ => None,
        }
    }

    /// The Linux value that the Darwin value `apple` is read as, if any.
    pub open spec fn linux_of(apple: i32) -> Option<u32> {
        match apple {
            1 => Some(1u32),
            2 => Some(2u32),
            3 => Some(3u32),
            4 => Some(4u32),
            5 => Some(5u32),
            8 => Some(8u32),
            9 => Some(9u32),
            10 => Some(10u32),
            35 => Some(11u32),
            12 => Some(12u32),
            13 => Some(13u32),
            14 => Some(14u32),
            16 => Some(16u32),
            17 => Some(17u32),
            18 => Some(18u32),
            20 => Some(20u32),
            21 => Some(21u32),
            22 => Some(22u32),
            24 => Some(24u32),
            25 => Some(25u32),
            26 => Some(26u32),
            28 => Some(28u32),
            29 => Some(29u32),
            30 => Some(30u32),
            32 => Some(32u32),
            34 => Some(34u32),
            78 => Some(38u32),
            66 => Some(39u32),
            62 => Some(40u32),
            38 => Some(88u32),
            41 => Some(91u32),
            102 => Some(95u32),
            47 => Some(97u32),
            48 => Some(98u32),
            49 => Some(99u32),
            50 => Some(100u32),
            51 => Some(101u32),
            54 => Some(104u32),
            55 => Some(105u32),
            56 => Some(106u32),
            60 => Some(110u32),
            61 => Some(111u32),
            65 => Some(113u32),
            37 => Some(114u32),
            36 => Some(115u32),
            _ => None,
        }
    }

}

impl FromApple for LxError {
    type Apple = i32;

    fn from_apple(apple: i32) -> (r: Result<Self, LxError>)
        ensures
            r == (match Self::linux_of(apple) {
                Some(x) => Ok(LxError(x)),
                None => Err(LxError(LxError::EINVAL)),
            }),
    {
        match apple {
            1 => Ok(LxError(Self::EPERM)),
            2 => Ok(LxError(Self::ENOENT)),
            3 => Ok(LxError(Self::ESRCH)),
            4 => Ok(LxError(Self::EINTR)),
            5 => Ok(LxError(Self::EIO)),
            8 => Ok(LxError(Self::ENOEXEC)),
            9 => Ok(LxError(Self::EBADF)),
            10 => Ok(LxError(Self::ECHILD)),
            35 => Ok(LxError(Self::EAGAIN)),
            12 => Ok(LxError(Self::ENOMEM)),
            13 => Ok(LxError(Self::EACCES)),
            14 => Ok(LxError(Self::EFAULT)),
            16 => Ok(LxError(Self::EBUSY)),
            17 => Ok(LxError(Self::EEXIST)),
            18 => Ok(LxError(Self::EXDEV)),
            20 => Ok(LxError(Self::ENOTDIR)),
            21 => Ok(LxError(Self::EISDIR)),
            22 => Ok(LxError(Self::EINVAL)),
            24 => Ok(LxError(Self::EMFILE)),
            25 => Ok(LxError(Self::ENOTTY)),
            26 => Ok(LxError(Self::ETXTBSY)),
            28 => Ok(LxError(Self::ENOSPC)),
            29 => Ok(LxError(Self::ESPIPE)),
            30 => Ok(LxError(Self::EROFS)),
            32 => Ok(LxError(Self::EPIPE)),
            34 => Ok(LxError(Self::ERANGE)),
            78 => Ok(LxError(Self::ENOSYS)),
            66 => Ok(LxError(Self::ENOTEMPTY)),
            62 => Ok(LxError(Self::ELOOP)),
            38 => Ok(LxError(Self::ENOTSOCK)),
            41 => Ok(LxError(Self::EPROTOTYPE)),
            102 => Ok(LxError(Self::EOPNOTSUPP)),
            47 => Ok(LxError(Self::EAFNOSUPPORT)),
            48 => Ok(LxError(Self::EADDRINUSE)),
            49 => Ok(LxError(Self::EADDRNOTAVAIL)),
            50 => Ok(LxError(Self::ENETDOWN)),
            51 => Ok(LxError(Self::ENETUNREACH)),
            54 => Ok(LxError(Self::ECONNRESET)),
            55 => Ok(LxError(Self::ENOBUFS)),
            56 => Ok(LxError(Self::EISCONN)),
            60 => Ok(LxError(Self::ETIMEDOUT)),
            61 => Ok(LxError(Self::ECONNREFUSED)),
            65 => Ok(LxError(Self::EHOSTUNREACH)),
            37 => Ok(LxError(Self::EALREADY)),
            36 => Ok(LxError(Self::EINPROGRESS)),
            _ => Err(LxError(LxError::EINVAL)),
        }
    }
}

impl ToApple for LxError {
    type Apple = i32;

    fn to_apple(self) -> (r: Result<i32, LxError>)
        ensures
            r == (match Self::apple_of(self.0) {
                Some(a) => Ok(a),
                None => Err(LxError(LxError::EINVAL)),
            }),
    {
        match self.0 {
            1 => Ok(1),
            2 => Ok(2),
            3 => Ok(3),
            4 => Ok(4),
            5 => Ok(5),
            8 => Ok(8),
            9 => Ok(9),
            10 => Ok(10),
            11 => Ok(35),
            12 => Ok(12),
            13 => Ok(13),
            14 => Ok(14),
            16 => Ok(16),
            17 => Ok(17),
            18 => Ok(18),
            20 => Ok(20),
            21 => Ok(21),
            22 => Ok(22),
            24 => Ok(24),
            25 => Ok(25),
            26 => Ok(26),
            28 => Ok(28),
            29 => Ok(29),
            30 => Ok(30),
            32 => Ok(32),
            34 => Ok(34),
            38 => Ok(78),
            39 => Ok(66),
            40 => Ok(62),
            88 => Ok(38),
            91 => Ok(41),
            95 => Ok(102),
            97 => Ok(47),
            98 => Ok(48),
            99 => Ok(49),
            100 => Ok(50),
            101 => Ok(51),
            104 => Ok(54),
            105 => Ok(55),
            106 => Ok(56),
            110 => Ok(60),
            111 => Ok(61),
            113 => Ok(65),
            114 => Ok(37),
            115 => Ok(36),
            _ => Err(LxError(LxError::EINVAL)),
        }
    }
}

/// Every Linux error number that Darwin knows comes back unchanged from a round trip through its
/// Darwin value.
pub proof fn lemma_lx_error_round_trip(linux: u32)
    ensures
        LxError::apple_of(linux) matches Some(a) ==> LxError::linux_of(a) == Some(linux),
{
}

/// Every Darwin error number that has a Linux counterpart comes back unchanged from a round trip
/// through it.
pub proof fn lemma_apple_error_round_trip(apple: i32)
    ensures
        LxError::linux_of(apple) matches Some(l) ==> LxError::apple_of(l) == Some(apple),
{
}

impl LxError {
    /// Converts a Darwin error number to a Linux one, falling back to `EIO` for numbers that have
    /// no Linux counterpart.
    pub fn from_apple_or_eio(apple: i32) -> (r: LxError)
        ensures
            r == (match LxError::linux_of(apple) {
                Some(x) => LxError(x),
                None => LxError(LxError::EIO),
            }),
    {
        match LxError::from_apple(apple) {
            Ok(e) => e,
            Err(_) => LxError(LxError::EIO),
        }
    }
}


/// The Linux error of the Darwin error number `apple`: its counterpart, `EIO` where there is none.
pub open spec fn apple_error(apple: i32) -> LxError {
    match LxError::linux_of(apple) {
        Some(x) => LxError(x),
        None => LxError(LxError::EIO),
    }
}

/// The outcome of a Darwin call that returns a count or a descriptor: `-1` is the failure that
/// the error number `errno` describes, any other value the result.
pub fn posix_count(ret: i32, errno: i32) -> (r: Result<i32, LxError>)
    ensures
        r == if ret == -1 {
            Err(apple_error(errno))
        } else {
            Ok::<i32, LxError>(ret)
        },
{
    if ret == -1 {
        Err(LxError::from_apple_or_eio(errno))
    } else {
        Ok(ret)
    }
}

/// The outcome of a Darwin call that only reports success: `-1` is the failure that the error
/// number `errno` describes, any other value success.
pub fn posix_status(ret: i32, errno: i32) -> (r: Result<(), LxError>)
    ensures
        r == if ret == -1 {
            Err(apple_error(errno))
        } else {
            Ok::<(), LxError>(())
        },
{
    if ret == -1 {
        Err(LxError::from_apple_or_eio(errno))
    } else {
        Ok(())
    }
}

/// Reads the error number of the last failed system call of this thread through
/// `std::io::Error::last_os_error`, whose documentation promises that such an error carries its
/// raw number (`raw_os_error` is `Some`). The number itself depends on what failed last and is
/// left unstated.
#[verifier::external_body]
fn last_os_errno() -> (r: Option<i32>)
    ensures
        r is Some,
{
    std::io::Error::last_os_error().raw_os_error()
}

impl LxError {
    /// The Linux error of the last failed system call: its Darwin number converted, `EIO` where
    /// Linux has no counterpart.
    pub fn last_apple_error() -> (r: LxError)
        ensures
            exists|apple: i32|
                r == (match #[trigger] LxError::linux_of(apple) {
                    Some(x) => LxError(x),
                    None => LxError(LxError::EIO),
                }),
    {
        match last_os_errno() {
            Some(apple) => LxError::from_apple_or_eio(apple),
            None => LxError(LxError::EIO),
        }
    }
}

/// Darwin `EPERM`.
pub const APPLE_EPERM: i32 = 1;
/// Darwin `ENOENT`.
pub const APPLE_ENOENT: i32 = 2;
/// Darwin `ESRCH`.
pub const APPLE_ESRCH: i32 = 3;
/// Darwin `EINTR`.
pub const APPLE_EINTR: i32 = 4;
/// Darwin `EIO`.
pub const APPLE_EIO: i32 = 5;
/// Darwin `ENOEXEC`.
pub const APPLE_ENOEXEC: i32 = 8;
/// Darwin `EBADF`.
pub const APPLE_EBADF: i32 = 9;
/// Darwin `ECHILD`.
pub const APPLE_ECHILD: i32 = 10;
/// Darwin `EAGAIN`.
pub const APPLE_EAGAIN: i32 = 35;
/// Darwin `ENOMEM`.
pub const APPLE_ENOMEM: i32 = 12;
/// Darwin `EACCES`.
pub const APPLE_EACCES: i32 = 13;
/// Darwin `EFAULT`.
pub const APPLE_EFAULT: i32 = 14;
/// Darwin `EBUSY`.
pub const APPLE_EBUSY: i32 = 16;
/// Darwin `EEXIST`.
pub const APPLE_EEXIST: i32 = 17;
/// Darwin `EXDEV`.
pub const APPLE_EXDEV: i32 = 18;
/// Darwin `ENOTDIR`.
pub const APPLE_ENOTDIR: i32 = 20;
/// Darwin `EISDIR`.
pub const APPLE_EISDIR: i32 = 21;
/// Darwin `EINVAL`.
pub const APPLE_EINVAL: i32 = 22;
/// Darwin `EMFILE`.
pub const APPLE_EMFILE: i32 = 24;
/// Darwin `ENOTTY`.
pub const APPLE_ENOTTY: i32 = 25;
/// Darwin `ETXTBSY`.
pub const APPLE_ETXTBSY: i32 = 26;
/// Darwin `ENOSPC`.
pub const APPLE_ENOSPC: i32 = 28;
/// Darwin `ESPIPE`.
pub const APPLE_ESPIPE: i32 = 29;
/// Darwin `EROFS`.
pub const APPLE_EROFS: i32 = 30;
/// Darwin `EPIPE`.
pub const APPLE_EPIPE: i32 = 32;
/// Darwin `ERANGE`.
pub const APPLE_ERANGE: i32 = 34;
/// Darwin `ENOSYS`.
pub const APPLE_ENOSYS: i32 = 78;
/// Darwin `ENOTEMPTY`.
pub const APPLE_ENOTEMPTY: i32 = 66;
/// Darwin `ELOOP`.
pub const APPLE_ELOOP: i32 = 62;
/// Darwin `ENOTSOCK`.
pub const APPLE_ENOTSOCK: i32 = 38;
/// Darwin `EPROTOTYPE`.
pub const APPLE_EPROTOTYPE: i32 = 41;
/// Darwin `EOPNOTSUPP`.
pub const APPLE_EOPNOTSUPP: i32 = 102;
/// Darwin `EAFNOSUPPORT`.
pub const APPLE_EAFNOSUPPORT: i32 = 47;
/// Darwin `EADDRINUSE`.
pub const APPLE_EADDRINUSE: i32 = 48;
/// Darwin `EADDRNOTAVAIL`.
pub const APPLE_EADDRNOTAVAIL: i32 = 49;
/// Darwin `ENETDOWN`.
pub const APPLE_ENETDOWN: i32 = 50;
/// Darwin `ENETUNREACH`.
pub const APPLE_ENETUNREACH: i32 = 51;
/// Darwin `ECONNRESET`.
pub const APPLE_ECONNRESET: i32 = 54;
/// Darwin `ENOBUFS`.
pub const APPLE_ENOBUFS: i32 = 55;
/// Darwin `EISCONN`.
pub const APPLE_EISCONN: i32 = 56;
/// Darwin `ETIMEDOUT`.
pub const APPLE_ETIMEDOUT: i32 = 60;
/// Darwin `ECONNREFUSED`.
pub const APPLE_ECONNREFUSED: i32 = 61;
/// Darwin `EHOSTUNREACH`.
pub const APPLE_EHOSTUNREACH: i32 = 65;
/// Darwin `EALREADY`.
pub const APPLE_EALREADY: i32 = 37;
/// Darwin `EINPROGRESS`.
pub const APPLE_EINPROGRESS: i32 = 36;

/// Each Linux error number stands for the Darwin error number of the same name, and each Darwin
/// error number is read back as the Linux one of its name; `EBADFD` has no Darwin counterpart.
pub proof fn lemma_errors_by_name()
    ensures
        LxError::apple_of(LxError::EPERM) == Some(APPLE_EPERM),
        LxError::linux_of(APPLE_EPERM) == Some(LxError::EPERM),
        LxError::apple_of(LxError::ENOENT) == Some(APPLE_ENOENT),
        LxError::linux_of(APPLE_ENOENT) == Some(LxError::ENOENT),
        LxError::apple_of(LxError::ESRCH) == Some(APPLE_ESRCH),
        LxError::linux_of(APPLE_ESRCH) == Some(LxError::ESRCH),
        LxError::apple_of(LxError::EINTR) == Some(APPLE_EINTR),
        LxError::linux_of(APPLE_EINTR) == Some(LxError::EINTR),
        LxError::apple_of(LxError::EIO) == Some(APPLE_EIO),
        LxError::linux_of(APPLE_EIO) == Some(LxError::EIO),
        LxError::apple_of(LxError::ENOEXEC) == Some(APPLE_ENOEXEC),
        LxError::linux_of(APPLE_ENOEXEC) == Some(LxError::ENOEXEC),
        LxError::apple_of(LxError::EBADF) == Some(APPLE_EBADF),
        LxError::linux_of(APPLE_EBADF) == Some(LxError::EBADF),
        LxError::apple_of(LxError::ECHILD) == Some(APPLE_ECHILD),
        LxError::linux_of(APPLE_ECHILD) == Some(LxError::ECHILD),
        LxError::apple_of(LxError::EAGAIN) == Some(APPLE_EAGAIN),
        LxError::linux_of(APPLE_EAGAIN) == Some(LxError::EAGAIN),
        LxError::apple_of(LxError::ENOMEM) == Some(APPLE_ENOMEM),
        LxError::linux_of(APPLE_ENOMEM) == Some(LxError::ENOMEM),
        LxError::apple_of(LxError::EACCES) == Some(APPLE_EACCES),
        LxError::linux_of(APPLE_EACCES) == Some(LxError::EACCES),
        LxError::apple_of(LxError::EFAULT) == Some(APPLE_EFAULT),
        LxError::linux_of(APPLE_EFAULT) == Some(LxError::EFAULT),
        LxError::apple_of(LxError::EBUSY) == Some(APPLE_EBUSY),
        LxError::linux_of(APPLE_EBUSY) == Some(LxError::EBUSY),
        LxError::apple_of(LxError::EEXIST) == Some(APPLE_EEXIST),
        LxError::linux_of(APPLE_EEXIST) == Some(LxError::EEXIST),
        LxError::apple_of(LxError::EXDEV) == Some(APPLE_EXDEV),
        LxError::linux_of(APPLE_EXDEV) == Some(LxError::EXDEV),
        LxError::apple_of(LxError::ENOTDIR) == Some(APPLE_ENOTDIR),
        LxError::linux_of(APPLE_ENOTDIR) == Some(LxError::ENOTDIR),
        LxError::apple_of(LxError::EISDIR) == Some(APPLE_EISDIR),
        LxError::linux_of(APPLE_EISDIR) == Some(LxError::EISDIR),
        LxError::apple_of(LxError::EINVAL) == Some(APPLE_EINVAL),
        LxError::linux_of(APPLE_EINVAL) == Some(LxError::EINVAL),
        LxError::apple_of(LxError::EMFILE) == Some(APPLE_EMFILE),
        LxError::linux_of(APPLE_EMFILE) == Some(LxError::EMFILE),
        LxError::apple_of(LxError::ENOTTY) == Some(APPLE_ENOTTY),
        LxError::linux_of(APPLE_ENOTTY) == Some(LxError::ENOTTY),
        LxError::apple_of(LxError::ETXTBSY) == Some(APPLE_ETXTBSY),
        LxError::linux_of(APPLE_ETXTBSY) == Some(LxError::ETXTBSY),
        LxError::apple_of(LxError::ENOSPC) == Some(APPLE_ENOSPC),
        LxError::linux_of(APPLE_ENOSPC) == Some(LxError::ENOSPC),
        LxError::apple_of(LxError::ESPIPE) == Some(APPLE_ESPIPE),
        LxError::linux_of(APPLE_ESPIPE) == Some(LxError::ESPIPE),
        LxError::apple_of(LxError::EROFS) == Some(APPLE_EROFS),
        LxError::linux_of(APPLE_EROFS) == Some(LxError::EROFS),
        LxError::apple_of(LxError::EPIPE) == Some(APPLE_EPIPE),
        LxError::linux_of(APPLE_EPIPE) == Some(LxError::EPIPE),
        LxError::apple_of(LxError::ERANGE) == Some(APPLE_ERANGE),
        LxError::linux_of(APPLE_ERANGE) == Some(LxError::ERANGE),
        LxError::apple_of(LxError::ENOSYS) == Some(APPLE_ENOSYS),
        LxError::linux_of(APPLE_ENOSYS) == Some(LxError::ENOSYS),
        LxError::apple_of(LxError::ENOTEMPTY) == Some(APPLE_ENOTEMPTY),
        LxError::linux_of(APPLE_ENOTEMPTY) == Some(LxError::ENOTEMPTY),
        LxError::apple_of(LxError::ELOOP) == Some(APPLE_ELOOP),
        LxError::linux_of(APPLE_ELOOP) == Some(LxError::ELOOP),
        LxError::apple_of(LxError::ENOTSOCK) == Some(APPLE_ENOTSOCK),
        LxError::linux_of(APPLE_ENOTSOCK) == Some(LxError::ENOTSOCK),
        LxError::apple_of(LxError::EPROTOTYPE) == Some(APPLE_EPROTOTYPE),
        LxError::linux_of(APPLE_EPROTOTYPE) == Some(LxError::EPROTOTYPE),
        LxError::apple_of(LxError::EOPNOTSUPP) == Some(APPLE_EOPNOTSUPP),
        LxError::linux_of(APPLE_EOPNOTSUPP) == Some(LxError::EOPNOTSUPP),
        LxError::apple_of(LxError::EAFNOSUPPORT) == Some(APPLE_EAFNOSUPPORT),
        LxError::linux_of(APPLE_EAFNOSUPPORT) == Some(LxError::EAFNOSUPPORT),
        LxError::apple_of(LxError::EADDRINUSE) == Some(APPLE_EADDRINUSE),
        LxError::linux_of(APPLE_EADDRINUSE) == Some(LxError::EADDRINUSE),
        LxError::apple_of(LxError::EADDRNOTAVAIL) == Some(APPLE_EADDRNOTAVAIL),
        LxError::linux_of(APPLE_EADDRNOTAVAIL) == Some(LxError::EADDRNOTAVAIL),
        LxError::apple_of(LxError::ENETDOWN) == Some(APPLE_ENETDOWN),
        LxError::linux_of(APPLE_ENETDOWN) == Some(LxError::ENETDOWN),
        LxError::apple_of(LxError::ENETUNREACH) == Some(APPLE_ENETUNREACH),
        LxError::linux_of(APPLE_ENETUNREACH) == Some(LxError::ENETUNREACH),
        LxError::apple_of(LxError::ECONNRESET) == Some(APPLE_ECONNRESET),
        LxError::linux_of(APPLE_ECONNRESET) == Some(LxError::ECONNRESET),
        LxError::apple_of(LxError::ENOBUFS) == Some(APPLE_ENOBUFS),
        LxError::linux_of(APPLE_ENOBUFS) == Some(LxError::ENOBUFS),
        LxError::apple_of(LxError::EISCONN) == Some(APPLE_EISCONN),
        LxError::linux_of(APPLE_EISCONN) == Some(LxError::EISCONN),
        LxError::apple_of(LxError::ETIMEDOUT) == Some(APPLE_ETIMEDOUT),
        LxError::linux_of(APPLE_ETIMEDOUT) == Some(LxError::ETIMEDOUT),
        LxError::apple_of(LxError::ECONNREFUSED) == Some(APPLE_ECONNREFUSED),
        LxError::linux_of(APPLE_ECONNREFUSED) == Some(LxError::ECONNREFUSED),
        LxError::apple_of(LxError::EHOSTUNREACH) == Some(APPLE_EHOSTUNREACH),
        LxError::linux_of(APPLE_EHOSTUNREACH) == Some(LxError::EHOSTUNREACH),
        LxError::apple_of(LxError::EALREADY) == Some(APPLE_EALREADY),
        LxError::linux_of(APPLE_EALREADY) == Some(LxError::EALREADY),
        LxError::apple_of(LxError::EINPROGRESS) == Some(APPLE_EINPROGRESS),
        LxError::linux_of(APPLE_EINPROGRESS) == Some(LxError::EINPROGRESS),
        LxError::apple_of(LxError::EBADFD) is None,
{
}

} // verus!
