//! Sockets: the options of the socket level and how their values cross between the
//! platforms, the paths of local sockets, and the setup of accepted connections.

use vstd::prelude::*;

use crate::bytes::{le_bytes, le_value, push_le, read_le_u64};
use crate::error::LxError;
use crate::net::{
    u32_at, DarwinLinger, Domain, Linger, Protocol, ShutdownHow, SockAddr, SockAddrIn, SockAddrUn,
    SockOpt, SocketFlags, SocketKind,
};
use crate::rtenv::io::PipeJob;
use crate::time::Timeval;
use crate::{FromApple, ToApple};

verus! {

/// How an option of the socket level is read and written.
#[derive(Debug, Clone, Copy, PartialEq, Eq, Structural)]
pub enum SockOptImpl {
    /// The option cannot be read or written.
    Invalid,
    /// An integer, read and written as it is.
    Int,
    /// An integer that can only be read.
    ReadonlyInt,
    /// The socket kind, read only.
    ReadonlyKind,
    /// The pending error, read only.
    ReadonlyError,
    /// A `linger` structure.
    Linger,
    /// A time value.
    Timeval,
}

/// The options of the socket level.
#[derive(Debug, Clone, Copy)]
pub struct SocketLevel;

impl SocketLevel {
    /// How the option numbered `opt` is handled, for the numbers the table covers.
    pub open spec fn impl_of(opt: u32) -> Option<SockOptImpl> {
        if opt > 30 {
            None
        } else if opt == 1 || opt == 2 || (5 <= opt <= 10) || opt == 15 || opt == 18 || opt == 19
            || opt == 29 {
            Some(SockOptImpl::Int)
        } else if opt == 3 {
            Some(SockOptImpl::ReadonlyKind)
        } else if opt == 4 {
            Some(SockOptImpl::ReadonlyError)
        } else if opt == 13 {
            Some(SockOptImpl::Linger)
        } else if opt == 20 || opt == 21 {
            Some(SockOptImpl::Timeval)
        } else if opt == 30 {
            Some(SockOptImpl::ReadonlyInt)
        } else {
            Some(SockOptImpl::Invalid)
        }
    }

    /// How the option numbered `opt` is handled.
    pub fn impls(opt: u32) -> (r: Option<SockOptImpl>)
        ensures
            r == Self::impl_of(opt),
    {
        if opt > 30 {
            None
        } else if opt == 1 || opt == 2 || (5 <= opt && opt <= 10) || opt == 15 || opt == 18 || opt
            == 19 || opt == 29 {
            Some(SockOptImpl::Int)
        } else if opt == 3 {
            Some(SockOptImpl::ReadonlyKind)
        } else if opt == 4 {
            Some(SockOptImpl::ReadonlyError)
        } else if opt == 13 {
            Some(SockOptImpl::Linger)
        } else if opt == 20 || opt == 21 {
            Some(SockOptImpl::Timeval)
        } else if opt == 30 {
            Some(SockOptImpl::ReadonlyInt)
        } else {
            Some(SockOptImpl::Invalid)
        }
    }

    /// The Darwin level of socket options.
    pub fn apple() -> (r: i32)
        ensures
            r == 0xffff,
    {
        0xffff
    }
}

/// The size of the Linux value of an option.
pub open spec fn linux_size(i: SockOptImpl) -> int {
    match i {
        SockOptImpl::Linger => 8,
        SockOptImpl::Timeval => 16,
        _ => 4,
    }
}

fn linux_size_of(i: SockOptImpl) -> (r: usize)
    ensures
        r == linux_size(i),
{
    match i {
        SockOptImpl::Linger => 8,
        SockOptImpl::Timeval => 16,
        _ => 4,
    }
}

/// The Darwin value of a socket option, as plain values.
#[derive(Debug, Clone, Copy, PartialEq, Eq, Structural)]
pub enum AppleOptValue {
    Int(i32),
    Linger(DarwinLinger),
    /// Seconds and microseconds.
    Timeval(i64, i32),
}

/// What reading a socket-level option asks of Darwin: the level, the option and how the value
/// comes back.
pub open spec fn get_plan(sockopt: SockOpt, buf_len: int) -> Result<(i32, i32, SockOptImpl), LxError> {
    match SocketLevel::impl_of(sockopt.0) {
        None => Err(LxError(LxError::EINVAL)),
        Some(i) => match SockOpt::apple_of(sockopt.0) {
            None => Err(LxError(LxError::EINVAL)),
            Some(a) => if i == SockOptImpl::Invalid || buf_len < linux_size(i) {
                Err(LxError(LxError::EINVAL))
            } else {
                Ok((0xffffi32, a, i))
            },
        },
    }
}

/// Plans the reading of a socket-level option into a buffer of `buf_len` bytes: an option the
/// table does not cover, one Darwin lacks, one that cannot be read, or a buffer too small for
/// the value, is `EINVAL`.
pub fn get(sockopt: SockOpt, buf_len: usize) -> (r: Result<(i32, i32, SockOptImpl), LxError>)
    ensures
        r == get_plan(sockopt, buf_len as int),
{
    let i = match SocketLevel::impls(sockopt.0) {
        Some(i) => i,
        None => return Err(LxError(LxError::EINVAL)),
    };
    let a = match sockopt.to_apple() {
        Ok(a) => a,
        Err(e) => return Err(e),
    };
    if i == SockOptImpl::Invalid || buf_len < linux_size_of(i) {
        return Err(LxError(LxError::EINVAL));
    }
    Ok((SocketLevel::apple(), a, i))
}

/// Whether a Darwin value has the shape that an option handling expects.
pub open spec fn value_fits(i: SockOptImpl, v: AppleOptValue) -> bool {
    match i {
        SockOptImpl::Linger => v is Linger,
        SockOptImpl::Timeval => v is Timeval,
        _ => v is Int,
    }
}

/// The Linux bytes of a read option value, or the error of converting it.
pub open spec fn linux_value_bytes(i: SockOptImpl, v: AppleOptValue) -> Result<Seq<u8>, LxError> {
    match v {
        AppleOptValue::Int(x) => match i {
            SockOptImpl::ReadonlyKind => match SocketKind::linux_of(x) {
                Some(k) => Ok(le_bytes(k as u64, 4)),
                None => Err(LxError(LxError::EINVAL)),
            },
            SockOptImpl::ReadonlyError => match LxError::linux_of(x) {
                Some(e) => Ok(le_bytes(e as u64, 4)),
                None => Err(LxError(LxError::EINVAL)),
            },
            _ => Ok(le_bytes(x as u32 as u64, 4)),
        },
        AppleOptValue::Linger(l) => Ok(
            le_bytes(l.l_onoff as u32 as u64, 4) + le_bytes(l.l_linger as u32 as u64, 4),
        ),
        AppleOptValue::Timeval(sec, usec) => Ok(
            le_bytes(sec as u64, 8) + le_bytes(usec as i64 as u64, 8),
        ),
    }
}

/// Finishes reading an option: the Linux bytes to store in the buffer and the outcome. A value
/// that does not convert stores nothing and is the error; otherwise the bytes are stored and
/// the outcome is that of the Darwin call.
pub fn get_finish(i: SockOptImpl, value: AppleOptValue, status: Result<(), LxError>) -> (r: (
    Vec<u8>,
    Result<(), LxError>,
))
    requires
        value_fits(i, value),
    ensures
        match linux_value_bytes(i, value) {
            Ok(b) => r.0@ == b && r.1 == status,
            Err(e) => r.0@.len() == 0 && r.1 == Err::<(), LxError>(e),
        },
{
    let mut out: Vec<u8> = Vec::new();
    match value {
        AppleOptValue::Int(x) => {
            if i == SockOptImpl::ReadonlyKind {
                match SocketKind::from_apple(x) {
                    Ok(k) => push_le(&mut out, k.0 as u64, 4),
                    Err(e) => return (Vec::new(), Err(e)),
                }
            } else if i == SockOptImpl::ReadonlyError {
                match LxError::from_apple(x) {
                    Ok(e) => push_le(&mut out, e.0 as u64, 4),
                    Err(e) => return (Vec::new(), Err(e)),
                }
            } else {
                push_le(&mut out, x as u32 as u64, 4);
            }
        },
        AppleOptValue::Linger(l) => {
            let linux = match Linger::from_apple(l) {
                Ok(v) => v,
                Err(e) => return (Vec::new(), Err(e)),
            };
            push_le(&mut out, linux.l_onoff as u32 as u64, 4);
            push_le(&mut out, linux.l_linger as u32 as u64, 4);
        },
        AppleOptValue::Timeval(sec, usec) => {
            let tv = Timeval::from_apple(sec, usec);
            push_le(&mut out, tv.tv_sec as u64, 8);
            push_le(&mut out, tv.tv_usec as u64, 8);
        },
    }
    (out, status)
}

/// The number that 4 little-endian bytes spell, as a signed integer.
pub open spec fn i32_at(b: Seq<u8>, off: int) -> i32 {
    u32_at(b, off) as i32
}

/// What writing a socket-level option from the Linux bytes `buf` asks of Darwin: the level,
/// the option and the value.
pub open spec fn set_plan(sockopt: SockOpt, buf: Seq<u8>) -> Result<(i32, i32, AppleOptValue), LxError> {
    match SocketLevel::impl_of(sockopt.0) {
        None => Err(LxError(LxError::EINVAL)),
        Some(i) => match SockOpt::apple_of(sockopt.0) {
            None => Err(LxError(LxError::EINVAL)),
            Some(a) => if !(i == SockOptImpl::Int || i == SockOptImpl::Linger || i
                == SockOptImpl::Timeval) || buf.len() < linux_size(i) {
                Err(LxError(LxError::EINVAL))
            } else {
                Ok(
                    (
                        0xffffi32,
                        a,
                        match i {
                            SockOptImpl::Linger => AppleOptValue::Linger(
                                DarwinLinger { l_onoff: i32_at(buf, 0), l_linger: i32_at(buf, 4) },
                            ),
                            SockOptImpl::Timeval => AppleOptValue::Timeval(
                                le_value(buf.subrange(0, 8)) as u64 as i64,
                                le_value(buf.subrange(8, 16)) as u64 as i64 as i32,
                            ),
                            _ => AppleOptValue::Int(i32_at(buf, 0)),
                        },
                    ),
                )
            },
        },
    }
}

fn read_i32(b: &[u8], off: usize) -> (r: i32)
    requires
        off + 4 <= b@.len(),
    ensures
        r == i32_at(b@, off as int),
{
    let x = b[off] as u32 + 256 * (b[off + 1] as u32 + 256 * (b[off + 2] as u32 + 256 * b[off
        + 3] as u32));
    x as i32
}

/// Plans the writing of a socket-level option from the Linux bytes `buf`: an option the table
/// does not cover, one Darwin lacks, one that cannot be written, or a buffer too small for the
/// value, is `EINVAL`. A time value's microseconds are cut to 32 bits.
pub fn set(sockopt: SockOpt, buf: &[u8]) -> (r: Result<(i32, i32, AppleOptValue), LxError>)
    ensures
        r == set_plan(sockopt, buf@),
{
    let i = match SocketLevel::impls(sockopt.0) {
        Some(i) => i,
        None => return Err(LxError(LxError::EINVAL)),
    };
    let a = match sockopt.to_apple() {
        Ok(a) => a,
        Err(e) => return Err(e),
    };
    if !(i == SockOptImpl::Int || i == SockOptImpl::Linger || i == SockOptImpl::Timeval) || buf.len()
        < linux_size_of(i) {
        return Err(LxError(LxError::EINVAL));
    }
    let value = match i {
        SockOptImpl::Linger => {
            let linux = Linger { l_onoff: read_i32(buf, 0), l_linger: read_i32(buf, 4) };
            match linux.to_apple() {
                Ok(l) => AppleOptValue::Linger(l),
                Err(e) => return Err(e),
            }
        },
        SockOptImpl::Timeval => {
            let sec = read_le_u64(buf, 0) as i64;
            let usec = read_le_u64(buf, 8) as i64;
            AppleOptValue::Timeval(sec, usec as i32)
        },
        _ => AppleOptValue::Int(read_i32(buf, 0)),
    };
    Ok((SocketLevel::apple(), a, value))
}

/// The Darwin arguments of `socket`.
pub fn socket(domain: Domain, kind: SocketKind, proto: Protocol) -> (r: Result<(i32, i32, i32), LxError>)
    ensures
        match (Domain::apple_of(domain.0), SocketKind::apple_of(kind.0), Protocol::apple_of(proto.0)) {
            (Some(d), Some(k), Some(p)) => r == Ok::<(i32, i32, i32), LxError>((d, k, p)),
            _ => r == Err::<(i32, i32, i32), LxError>(LxError(LxError::EINVAL)),
        },
{
    let d = match domain.to_apple() {
        Ok(d) => d,
        Err(e) => return Err(e),
    };
    let k = match kind.to_apple() {
        Ok(k) => k,
        Err(e) => return Err(e),
    };
    let p = match proto.to_apple() {
        Ok(p) => p,
        Err(e) => return Err(e),
    };
    Ok((d, k, p))
}

/// The Darwin argument of `shutdown`.
pub fn shutdown(how: ShutdownHow) -> (r: Result<i32, LxError>)
    ensures
        r == match ShutdownHow::apple_of(how.0) {
            Some(a) => Ok::<i32, LxError>(a),
            None => Err(LxError(LxError::EINVAL)),
        },
{
    how.to_apple()
}

/// The setup steps of an accepted connection `fd`: non-blocking and then close-on-exec where
/// the flags ask for them.
pub fn prepare_accepted(flags: SocketFlags, fd: i32) -> (r: Vec<PipeJob>)
    ensures
        r@ == (if flags.0 & SocketFlags::SOCK_NONBLOCK == SocketFlags::SOCK_NONBLOCK {
            seq![PipeJob::Nonblock(fd)]
        } else {
            Seq::empty()
        }) + (if flags.0 & SocketFlags::SOCK_CLOEXEC == SocketFlags::SOCK_CLOEXEC {
            seq![PipeJob::Cloexec(fd)]
        } else {
            Seq::empty()
        }),
{
    let mut r: Vec<PipeJob> = Vec::new();
    if flags.contains(SocketFlags::SOCK_NONBLOCK) {
        r.push(PipeJob::Nonblock(fd));
    }
    if flags.contains(SocketFlags::SOCK_CLOEXEC) {
        r.push(PipeJob::Cloexec(fd));
    }
    assert(r@ =~= (if flags.0 & SocketFlags::SOCK_NONBLOCK == SocketFlags::SOCK_NONBLOCK {
        seq![PipeJob::Nonblock(fd)]
    } else {
        Seq::empty()
    }) + (if flags.0 & SocketFlags::SOCK_CLOEXEC == SocketFlags::SOCK_CLOEXEC {
        seq![PipeJob::Cloexec(fd)]
    } else {
        Seq::empty()
    }));
    r
}

/// The position of the first zero of `s`, if any.
pub open spec fn first_nul(s: Seq<u8>) -> Option<int>
    decreases s.len(),
{
    if s.len() == 0 {
        None
    } else if s[0] == 0 {
        Some(0)
    } else {
        match first_nul(s.drop_first()) {
            Some(i) => Some(i + 1),
            None => None,
        }
    }
}

proof fn lemma_first_nul_none(s: Seq<u8>)
    requires
        forall|j: int| 0 <= j < s.len() ==> s[j] != 0,
    ensures
        first_nul(s) is None,
    decreases s.len(),
{
    if s.len() > 0 {
        lemma_first_nul_none(s.drop_first());
    }
}

proof fn lemma_first_nul_at(s: Seq<u8>, n: int)
    requires
        0 <= n < s.len(),
        s[n] == 0,
        forall|j: int| 0 <= j < n ==> s[j] != 0,
    ensures
        first_nul(s) == Some(n),
    decreases s.len(),
{
    if s[0] != 0 {
        lemma_first_nul_at(s.drop_first(), n - 1);
    }
}

/// The path of a local address that the server is asked about: for an abstract address (whose
/// path starts with a zero) its first `len` bytes; for another, the bytes before its first zero
/// byte; no zero at all is `EINVAL`.
pub open spec fn local_path(sun_path: Seq<u8>, len: int) -> Result<Seq<u8>, LxError> {
    if sun_path[0] == 0 {
        Ok(sun_path.take(len))
    } else {
        match first_nul(sun_path) {
            None => Err(LxError(LxError::EINVAL)),
            Some(i) => Ok(sun_path.take(i)),
        }
    }
}

/// The path of a local address to ask the server about.
pub fn apple_sun_path(linux: &SockAddrUn, len: usize) -> (r: Result<Vec<u8>, LxError>)
    requires
        len <= 108,
    ensures
        match local_path(linux.sun_path@, len as int) {
            Ok(p) => r matches Ok(v) && v@ == p,
            Err(e) => r == Err::<Vec<u8>, LxError>(e),
        },
{
    if linux.sun_path[0] == 0 {
        let mut v: Vec<u8> = Vec::new();
        let mut i: usize = 0;
        while i < len
            invariant
                i <= len <= 108,
                v@ == linux.sun_path@.take(i as int),
            decreases len - i,
        {
            v.push(linux.sun_path[i]);
            i = i + 1;
            assert(v@ =~= linux.sun_path@.take(i as int));
        }
        return Ok(v);
    }
    let mut i: usize = 0;
    while i < 108
        invariant
            i <= 108,
            linux.sun_path@[0] != 0,
            forall|j: int| 0 <= j < i ==> linux.sun_path@[j] != 0,
        decreases 108 - i,
    {
        if linux.sun_path[i] == 0 {
            proof {
                lemma_first_nul_at(linux.sun_path@, i as int);
            }
            let mut v: Vec<u8> = Vec::new();
            let mut k: usize = 0;
            while k < i
                invariant
                    k <= i < 108,
                    v@ == linux.sun_path@.take(k as int),
                decreases i - k,
            {
                v.push(linux.sun_path[k]);
                k = k + 1;
                assert(v@ =~= linux.sun_path@.take(k as int));
            }
            return Ok(v);
        }
        i = i + 1;
    }
    proof {
        lemma_first_nul_none(linux.sun_path@);
    }
    Err(LxError(LxError::EINVAL))
}

/// The Darwin bytes of a local address for the host path `path`: length 106, family 1, the
/// path and zeros to 104 bytes. A path longer than 104 bytes is `ENOMEM`.
pub open spec fn apple_sun_bytes(path: Seq<u8>) -> Seq<u8> {
    seq![106u8, 1u8] + path + Seq::new((104 - path.len()) as nat, |i: int| 0u8)
}

/// Builds the Darwin local address of the host path `path`.
pub fn apple_sockaddr_un(path: &[u8]) -> (r: Result<Vec<u8>, LxError>)
    requires
        path@.len() != 104,
    ensures
        path@.len() > 104 ==> r == Err::<Vec<u8>, LxError>(LxError(LxError::ENOMEM)),
        path@.len() < 104 ==> (r matches Ok(v) && v@ == apple_sun_bytes(path@)),
{
    if path.len() > 104 {
        return Err(LxError(LxError::ENOMEM));
    }
    let mut v: Vec<u8> = Vec::new();
    v.push(106);
    v.push(1);
    let mut i: usize = 0;
    while i < path.len()
        invariant
            i <= path@.len() < 104,
            v@ == seq![106u8, 1u8] + path@.take(i as int),
        decreases path@.len() - i,
    {
        v.push(path[i]);
        i = i + 1;
        assert(v@ =~= seq![106u8, 1u8] + path@.take(i as int));
    }
    assert(path@.take(path@.len() as int) =~= path@);
    let ghost head = v@;
    let mut k: usize = path.len();
    while k < 104
        invariant
            path@.len() <= k <= 104,
            head == seq![106u8, 1u8] + path@,
            v@ == head + Seq::new((k - path@.len()) as nat, |i: int| 0u8),
        decreases 104 - k,
    {
        v.push(0);
        k = k + 1;
        assert(v@ =~= head + Seq::new((k - path@.len()) as nat, |i: int| 0u8));
    }
    Ok(v)
}

/// The Darwin bytes of an address to bind or connect to, in a buffer of 128 bytes, and the
/// length passed with them, which is zero. Local addresses go through the server first and are
/// built by [`apple_sockaddr_un`].
pub fn apple_sockaddr_in(inet: &SockAddrIn) -> (r: (Vec<u8>, usize))
    ensures
        r.0@ == crate::net::apple_sockaddr_in_bytes(*inet) + Seq::new(112, |i: int| 0u8),
        r.1 == 0,
{
    let mut buf: Vec<u8> = Vec::new();
    let mut i: usize = 0;
    while i < 128
        invariant
            i <= 128,
            buf@ == Seq::new(i as nat, |k: int| 0u8),
        decreases 128 - i,
    {
        buf.push(0);
        i = i + 1;
        assert(buf@ =~= Seq::new(i as nat, |k: int| 0u8));
    }
    let ghost start = buf@;
    let _ = inet.to_apple(buf.as_mut_slice());
    assert(start.skip(16) =~= Seq::new(112, |i: int| 0u8));
    (buf, 0)
}

/// The Linux address of an address Darwin gave: an IPv4 one converted, `None` for a local one
/// (whose path the server maps back); too short for its family is `ENOMEM`, another family
/// `EAFNOSUPPORT`.
pub fn linux_sockaddr(apple: &[u8]) -> (r: Result<Option<SockAddr>, LxError>)
    ensures
        apple@.len() < 2 ==> r == Err::<Option<SockAddr>, LxError>(LxError(LxError::ENOMEM)),
        apple@.len() >= 2 && apple@[1] == 1 ==> r matches Ok(None),
        apple@.len() >= 2 && apple@[1] == 2 && apple@.len() < 16 ==> r == Err::<
            Option<SockAddr>,
            LxError,
        >(LxError(LxError::ENOMEM)),
        apple@.len() >= 16 && apple@[1] == 2 ==> (r matches Ok(Some(SockAddr::In(a))) && a.sin_port
            == crate::net::u16_at(apple@, 2) && a.sin_addr.0 == u32_at(apple@, 4)),
        apple@.len() >= 2 && apple@[1] != 1 && apple@[1] != 2 ==> r == Err::<
            Option<SockAddr>,
            LxError,
        >(LxError(LxError::EAFNOSUPPORT)),
{
    if apple.len() < 2 {
        return Err(LxError(LxError::ENOMEM));
    }
    let family = apple[1];
    if family == 1 {
        Ok(None)
    } else if family == 2 {
        match SockAddrIn::from_apple(apple) {
            Ok(a) => Ok(Some(SockAddr::In(a))),
            Err(e) => Err(e),
        }
    } else {
        Err(LxError(LxError::EAFNOSUPPORT))
    }
}

} // verus!
