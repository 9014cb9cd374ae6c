//! Sockets: domains, kinds, protocols, options and addresses.

use vstd::prelude::*;

use crate::error::LxError;
use crate::{FromApple, ToApple};

verus! {

/// The two little-endian bytes of `x`.
pub open spec fn u16_bytes(x: u16) -> Seq<u8> {
    seq![(x % 256) as u8, (x / 256) as u8]
}

/// The four little-endian bytes of `x`.
pub open spec fn u32_bytes(x: u32) -> Seq<u8> {
    seq![(x % 256) as u8, ((x / 256) % 256) as u8, ((x / 65536) % 256) as u8, (x / 16777216) as u8]
}

/// The number that the two little-endian bytes at `off` spell.
pub open spec fn u16_at(b: Seq<u8>, off: int) -> u16 {
    (b[off] + 256 * b[off + 1]) as u16
}

/// The number that the four little-endian bytes at `off` spell.
pub open spec fn u32_at(b: Seq<u8>, off: int) -> u32 {
    (b[off] + 256 * (b[off + 1] + 256 * (b[off + 2] + 256 * b[off + 3]))) as u32
}

fn read_u16(b: &[u8], off: usize) -> (r: u16)
    requires
        off + 2 <= b@.len(),
    ensures
        r == u16_at(b@, off as int),
{
    b[off] as u16 + 256 * b[off + 1] as u16
}

fn read_u32(b: &[u8], off: usize) -> (r: u32)
    requires
        off + 4 <= b@.len(),
    ensures
        r == u32_at(b@, off as int),
{
    b[off] as u32 + 256 * (b[off + 1] as u32 + 256 * (b[off + 2] as u32 + 256 * b[off + 3] as u32))
}

fn write_u16(b: &mut [u8], off: usize, x: u16)
    requires
        off + 2 <= old(b)@.len(),
    ensures
        final(b)@ == old(b)@.update(off as int, u16_bytes(x)[0]).update(off + 1, u16_bytes(x)[1]),
{
    b[off] = (x % 256) as u8;
    b[off + 1] = (x / 256) as u8;
}

fn write_u32(b: &mut [u8], off: usize, x: u32)
    requires
        off + 4 <= old(b)@.len(),
    ensures
        final(b)@.len() == old(b)@.len(),
        final(b)@.subrange(off as int, off + 4) == u32_bytes(x),
        forall|i: int| 0 <= i < old(b)@.len() && !(off <= i < off + 4) ==> final(b)@[i] == old(b)@[i],
{
    b[off] = (x % 256) as u8;
    b[off + 1] = ((x / 256) % 256) as u8;
    b[off + 2] = ((x / 65536) % 256) as u8;
    b[off + 3] = (x / 16777216) as u8;
    assert(b@.subrange(off as int, off + 4) =~= u32_bytes(x));
}

/// Two little-endian bytes read back give the number written.
pub proof fn lemma_u16_round_trip(x: u16)
    ensures
        u16_at(u16_bytes(x), 0) == x,
{
}

/// Four little-endian bytes read back give the number written.
pub proof fn lemma_u32_round_trip(x: u32)
    ensures
        u32_at(u32_bytes(x), 0) == x,
{
}

/// A communication domain of a socket.
#[derive(Debug, Clone, Copy, PartialEq, Eq, Structural)]
pub struct Domain(pub u32);

impl Domain {
    pub const PF_LOCAL: u32 = 1;
    pub const PF_INET: u32 = 2;
    pub const PF_INET6: u32 = 10;

    /// The Darwin value that the Linux value `linux` stands for, if Darwin has one.
    pub open spec fn apple_of(linux: u32) -> Option<i32> {
        match linux {
            1 => Some(1i32),
            2 => Some(2i32),
            10 => Some(30i32),
            _ => None,
        }
    }

    /// The Linux value that the Darwin value `apple` is read as, if any.
    pub open spec fn linux_of(apple: i32) -> Option<u32> {
        match apple {
            1 => Some(1u32),
            2 => Some(2u32),
            30 => Some(10u32),
            _ => None,
        }
    }

}

impl FromApple for Domain {
    type Apple = i32;

    fn from_apple(apple: i32) -> (r: Result<Self, LxError>)
        ensures
            r == (match Self::linux_of(apple) {
                Some(x) => Ok(Domain(x)),
                None => Err(LxError(LxError::EINVAL)),
            }),
    {
        match apple {
            1 => Ok(Domain(Self::PF_LOCAL)),
            2 => Ok(Domain(Self::PF_INET)),
            30 => Ok(Domain(Self::PF_INET6)),
            _ => Err(LxError(LxError::EINVAL)),
        }
    }
}

impl ToApple for Domain {
    type Apple = i32;

    fn to_apple(self) -> (r: Result<i32, LxError>)
        ensures
            r == (match Self::apple_of(self.0) {
                Some(a) => Ok(a),
                None => Err(LxError(LxError::EINVAL)),
            }),
    {
        match self.0 {
            1 => Ok(1),
            2 => Ok(2),
            10 => Ok(30),
            _ => Err(LxError(LxError::EINVAL)),
        }
    }
}

/// The kind of a socket.
#[derive(Debug, Clone, Copy, PartialEq, Eq, Structural)]
pub struct SocketKind(pub u32);

impl SocketKind {
    pub const SOCK_STREAM: u32 = 1;
    pub const SOCK_DGRAM: u32 = 2;
    pub const SOCK_RAW: u32 = 3;

    /// The Darwin value that the Linux value `linux` stands for, if Darwin has one.
    pub open spec fn apple_of(linux: u32) -> Option<i32> {
        match linux {
            1 => Some(1i32),
            2 => Some(2i32),
            3 => Some(3i32),
            _ => None,
        }
    }

    /// The Linux value that the Darwin value `apple` is read as, if any.
    pub open spec fn linux_of(apple: i32) -> Option<u32> {
        match apple {
            1 => Some(1u32),
            2 => Some(2u32),
            3 => Some(3u32),
            _ => None,
        }
    }

}

impl FromApple for SocketKind {
    type Apple = i32;

    fn from_apple(apple: i32) -> (r: Result<Self, LxError>)
        ensures
            r == (match Self::linux_of(apple) {
                Some(x) => Ok(SocketKind(x)),
                None => Err(LxError(LxError::EINVAL)),
            }),
    {
        match apple {
            1 => Ok(SocketKind(Self::SOCK_STREAM)),
            2 => Ok(SocketKind(Self::SOCK_DGRAM)),
            3 => Ok(SocketKind(Self::SOCK_RAW)),
            _ => Err(LxError(LxError::EINVAL)),
        }
    }
}

impl ToApple for SocketKind {
    type Apple = i32;

    fn to_apple(self) -> (r: Result<i32, LxError>)
        ensures
            r == (match Self::apple_of(self.0) {
                Some(a) => Ok(a),
                None => Err(LxError(LxError::EINVAL)),
            }),
    {
        match self.0 {
            1 => Ok(1),
            2 => Ok(2),
            3 => Ok(3),
            _ => Err(LxError(LxError::EINVAL)),
        }
    }
}

/// A socket protocol.
#[derive(Debug, Clone, Copy, PartialEq, Eq, Structural)]
pub struct Protocol(pub u32);

impl Protocol {
    pub const IPPROTO_IP: u32 = 0;
    pub const IPPROTO_ICMP: u32 = 1;
    pub const IPPROTO_IGMP: u32 = 2;
    pub const IPPROTO_TCP: u32 = 6;
    pub const IPPROTO_UDP: u32 = 17;
    pub const IPPROTO_IPV6: u32 = 41;
    pub const IPPROTO_ICMPV6: u32 = 58;

    /// The Darwin value that the Linux value `linux` stands for, if Darwin has one.
    pub open spec fn apple_of(linux: u32) -> Option<i32> {
        match linux {
            0 => Some(0i32),
            1 => Some(1i32),
            2 => Some(2i32),
            6 => Some(6i32),
            17 => Some(17i32),
            41 => Some(41i32),
            58 => Some(58i32),
            _ => None,
        }
    }

    /// The Linux value that the Darwin value `apple` is read as, if any.
    pub open spec fn linux_of(apple: i32) -> Option<u32> {
        match apple {
            0 => Some(0u32),
            1 => Some(1u32),
            2 => Some(2u32),
            6 => Some(6u32),
            17 => Some(17u32),
            41 => Some(41u32),
            58 => Some(58u32),
            _ => None,
        }
    }

}

impl FromApple for Protocol {
    type Apple = i32;

    fn from_apple(apple: i32) -> (r: Result<Self, LxError>)
        ensures
            r == (match Self::linux_of(apple) {
                Some(x) => Ok(Protocol(x)),
                None => Err(LxError(LxError::EINVAL)),
            }),
    {
        match apple {
            0 => Ok(Protocol(Self::IPPROTO_IP)),
            1 => Ok(Protocol(Self::IPPROTO_ICMP)),
            2 => Ok(Protocol(Self::IPPROTO_IGMP)),
            6 => Ok(Protocol(Self::IPPROTO_TCP)),
            17 => Ok(Protocol(Self::IPPROTO_UDP)),
            41 => Ok(Protocol(Self::IPPROTO_IPV6)),
            58 => Ok(Protocol(Self::IPPROTO_ICMPV6)),
            _ => Err(LxError(LxError::EINVAL)),
        }
    }
}

impl ToApple for Protocol {
    type Apple = i32;

    fn to_apple(self) -> (r: Result<i32, LxError>)
        ensures
            r == (match Self::apple_of(self.0) {
                Some(a) => Ok(a),
                None => Err(LxError(LxError::EINVAL)),
            }),
    {
        match self.0 {
            0 => Ok(0),
            1 => Ok(1),
            2 => Ok(2),
            6 => Ok(6),
            17 => Ok(17),
            41 => Ok(41),
            58 => Ok(58),
            _ => Err(LxError(LxError::EINVAL)),
        }
    }
}

/// A socket option.
#[derive(Debug, Clone, Copy, PartialEq, Eq, Structural)]
pub struct SockOpt(pub u32);

impl SockOpt {
    pub const SO_DEBUG: u32 = 1;
    pub const SO_REUSEADDR: u32 = 2;
    pub const SO_TYPE: u32 = 3;
    pub const SO_ERROR: u32 = 4;
    pub const SO_DONTROUTE: u32 = 5;
    pub const SO_BROADCAST: u32 = 6;
    pub const SO_SNDBUF: u32 = 7;
    pub const SO_RCVBUF: u32 = 8;
    pub const SO_KEEPALIVE: u32 = 9;
    pub const SO_OOBINLINE: u32 = 10;
    pub const SO_LINGER: u32 = 13;
    pub const SO_REUSEPORT: u32 = 15;
    pub const SO_RCVLOWAT: u32 = 18;
    pub const SO_SNDLOWAT: u32 = 19;
    pub const SO_RCVTIMEO: u32 = 20;
    pub const SO_SNDTIMEO: u32 = 21;
    pub const SO_TIMESTAMP: u32 = 29;
    pub const SO_ACCEPTCONN: u32 = 30;
    pub const SO_NO_CHECK: u32 = 11;
    pub const SO_PRIORITY: u32 = 12;
    pub const SO_PASSCRED: u32 = 16;
    pub const SO_PEERSEC: u32 = 31;
    pub const SO_SNDBUFFORCE: u32 = 32;
    pub const SO_RCVBUFFORCE: u32 = 33;
    pub const SO_PROTOCOL: u32 = 38;
    pub const SO_DOMAIN: u32 = 39;
    pub const SO_PEERCRED: u32 = 17;
    pub const SO_BINDTODEVICE: u32 = 25;

    /// The Darwin value that the Linux value `linux` stands for, if Darwin has one.
    pub open spec fn apple_of(linux: u32) -> Option<i32> {
        match linux {
            1 => Some(1i32),
            2 => Some(4i32),
            3 => Some(4104i32),
            4 => Some(4103i32),
            5 => Some(16i32),
            6 => Some(32i32),
            7 => Some(4097i32),
            8 => Some(4098i32),
            9 => Some(8i32),
            10 => Some(256i32),
            13 => Some(128i32),
            15 => Some(512i32),
            18 => Some(4100i32),
            19 => Some(4099i32),
            20 => Some(4102i32),
            21 => Some(4101i32),
            29 => Some(1024i32),
            30 => Some(2i32),
            17 => Some(1i32),
            25 => Some(25i32),
            _ => None,
        }
    }

    /// The Linux value that the Darwin value `apple` is read as, if any.
    pub open spec fn linux_of(apple: i32) -> Option<u32> {
        match apple {
            1 => Some(1u32),
            4 => Some(2u32),
            4104 => Some(3u32),
            4103 => Some(4u32),
            16 => Some(5u32),
            32 => Some(6u32),
            4097 => Some(7u32),
            4098 => Some(8u32),
            8 => Some(9u32),
            256 => Some(10u32),
            128 => Some(13u32),
            512 => Some(15u32),
            4100 => Some(18u32),
            4099 => Some(19u32),
            4102 => Some(20u32),
            4101 => Some(21u32),
            1024 => Some(29u32),
            2 => Some(30u32),
            25 => Some(25u32),
            _ => None,
        }
    }

}

impl FromApple for SockOpt {
    type Apple = i32;

    fn from_apple(apple: i32) -> (r: Result<Self, LxError>)
        ensures
            r == (match Self::linux_of(apple) {
                Some(x) => Ok(SockOpt(x)),
                None => Err(LxError(LxError::EINVAL)),
            }),
    {
        match apple {
            1 => Ok(SockOpt(Self::SO_DEBUG)),
            4 => Ok(SockOpt(Self::SO_REUSEADDR)),
            4104 => Ok(SockOpt(Self::SO_TYPE)),
            4103 => Ok(SockOpt(Self::SO_ERROR)),
            16 => Ok(SockOpt(Self::SO_DONTROUTE)),
            32 => Ok(SockOpt(Self::SO_BROADCAST)),
            4097 => Ok(SockOpt(Self::SO_SNDBUF)),
            4098 => Ok(SockOpt(Self::SO_RCVBUF)),
            8 => Ok(SockOpt(Self::SO_KEEPALIVE)),
            256 => Ok(SockOpt(Self::SO_OOBINLINE)),
            128 => Ok(SockOpt(Self::SO_LINGER)),
            512 => Ok(SockOpt(Self::SO_REUSEPORT)),
            4100 => Ok(SockOpt(Self::SO_RCVLOWAT)),
            4099 => Ok(SockOpt(Self::SO_SNDLOWAT)),
            4102 => Ok(SockOpt(Self::SO_RCVTIMEO)),
            4101 => Ok(SockOpt(Self::SO_SNDTIMEO)),
            1024 => Ok(SockOpt(Self::SO_TIMESTAMP)),
            2 => Ok(SockOpt(Self::SO_ACCEPTCONN)),
            25 => Ok(SockOpt(Self::SO_BINDTODEVICE)),
            _ => Err(LxError(LxError::EINVAL)),
        }
    }
}

impl ToApple for SockOpt {
    type Apple = i32;

    fn to_apple(self) -> (r: Result<i32, LxError>)
        ensures
            r == (match Self::apple_of(self.0) {
                Some(a) => Ok(a),
                None => Err(LxError(LxError::EINVAL)),
            }),
    {
        match self.0 {
            1 => Ok(1),
            2 => Ok(4),
            3 => Ok(4104),
            4 => Ok(4103),
            5 => Ok(16),
            6 => Ok(32),
            7 => Ok(4097),
            8 => Ok(4098),
            9 => Ok(8),
            10 => Ok(256),
            13 => Ok(128),
            15 => Ok(512),
            18 => Ok(4100),
            19 => Ok(4099),
            20 => Ok(4102),
            21 => Ok(4101),
            29 => Ok(1024),
            30 => Ok(2),
            17 => Ok(1),
            25 => Ok(25),
            _ => Err(LxError(LxError::EINVAL)),
        }
    }
}

/// The level that a socket option belongs to.
#[derive(Debug, Clone, Copy, PartialEq, Eq, Structural)]
pub struct SockOptLevel(pub u32);

impl SockOptLevel {
    pub const SOL_SOCKET: u32 = 1;
    pub const SOL_IP: u32 = 0;
    pub const SOL_TCP: u32 = 6;
    pub const SOL_UDP: u32 = 17;
    pub const SOL_IPV6: u32 = 41;

    /// The Darwin value that the Linux value `linux` stands for, if Darwin has one.
    pub open spec fn apple_of(linux: u32) -> Option<i32> {
        match linux {
            1 => Some(65535i32),
            0 => Some(0i32),
            6 => Some(6i32),
            17 => Some(17i32),
            41 => Some(41i32),
            _ => None,
        }
    }

    /// The Linux value that the Darwin value `apple` is read as, if any.
    pub open spec fn linux_of(apple: i32) -> Option<u32> {
        match apple {
            65535 => Some(1u32),
            0 => Some(0u32),
            6 => Some(6u32),
            17 => Some(17u32),
            41 => Some(41u32),
            _ => None,
        }
    }

}

impl FromApple for SockOptLevel {
    type Apple = i32;

    fn from_apple(apple: i32) -> (r: Result<Self, LxError>)
        ensures
            r == (match Self::linux_of(apple) {
                Some(x) => Ok(SockOptLevel(x)),
                None => Err(LxError(LxError::EINVAL)),
            }),
    {
        match apple {
            65535 => Ok(SockOptLevel(Self::SOL_SOCKET)),
            0 => Ok(SockOptLevel(Self::SOL_IP)),
            6 => Ok(SockOptLevel(Self::SOL_TCP)),
            17 => Ok(SockOptLevel(Self::SOL_UDP)),
            41 => Ok(SockOptLevel(Self::SOL_IPV6)),
            _ => Err(LxError(LxError::EINVAL)),
        }
    }
}

impl ToApple for SockOptLevel {
    type Apple = i32;

    fn to_apple(self) -> (r: Result<i32, LxError>)
        ensures
            r == (match Self::apple_of(self.0) {
                Some(a) => Ok(a),
                None => Err(LxError(LxError::EINVAL)),
            }),
    {
        match self.0 {
            1 => Ok(65535),
            0 => Ok(0),
            6 => Ok(6),
            17 => Ok(17),
            41 => Ok(41),
            _ => Err(LxError(LxError::EINVAL)),
        }
    }
}

/// Which directions a `shutdown` closes.
#[derive(Debug, Clone, Copy, PartialEq, Eq, Structural)]
pub struct ShutdownHow(pub u32);

impl ShutdownHow {
    pub const SHUT_RD: u32 = 0;
    pub const SHUT_WR: u32 = 1;
    pub const SHUT_RDWR: u32 = 2;

    /// The Darwin value that the Linux value `linux` stands for, if Darwin has one.
    pub open spec fn apple_of(linux: u32) -> Option<i32> {
        match linux {
            0 => Some(0i32),
            1 => Some(1i32),
            2 => Some(2i32),
            _ => None,
        }
    }

    /// The Linux value that the Darwin value `apple` is read as, if any.
    pub open spec fn linux_of(apple: i32) -> Option<u32> {
        match apple {
            0 => Some(0u32),
            1 => Some(1u32),
            2 => Some(2u32),
            _ => None,
        }
    }

}

impl FromApple for ShutdownHow {
    type Apple = i32;

    fn from_apple(apple: i32) -> (r: Result<Self, LxError>)
        ensures
            r == (match Self::linux_of(apple) {
                Some(x) => Ok(ShutdownHow(x)),
                None => Err(LxError(LxError::EINVAL)),
            }),
    {
        match apple {
            0 => Ok(ShutdownHow(Self::SHUT_RD)),
            1 => Ok(ShutdownHow(Self::SHUT_WR)),
            2 => Ok(ShutdownHow(Self::SHUT_RDWR)),
            _ => Err(LxError(LxError::EINVAL)),
        }
    }
}

impl ToApple for ShutdownHow {
    type Apple = i32;

    fn to_apple(self) -> (r: Result<i32, LxError>)
        ensures
            r == (match Self::apple_of(self.0) {
                Some(a) => Ok(a),
                None => Err(LxError(LxError::EINVAL)),
            }),
    {
        match self.0 {
            0 => Ok(0),
            1 => Ok(1),
            2 => Ok(2),
            _ => Err(LxError(LxError::EINVAL)),
        }
    }
}

/// The type word of a `socket` call: a kind in the low byte and flags above it.
#[derive(Debug, Clone, Copy, PartialEq, Eq, Structural)]
pub struct SocketType(pub u32);

impl SocketType {
    /// The kind: the low byte.
    pub fn kind(self) -> (r: SocketKind)
        ensures
            r.0 == self.0 & 255u32,
    {
        SocketKind(self.0 & 255)
    }

    /// The flags: the bits above the low byte.
    pub fn flags(self) -> (r: SocketFlags)
        ensures
            r.0 == self.0 & !255u32,
    {
        SocketFlags(self.0 & !255)
    }
}

/// Flags of a new socket.
#[derive(Debug, Clone, Copy, PartialEq, Eq, Structural)]
pub struct SocketFlags(pub u32);

impl SocketFlags {
    pub const SOCK_NONBLOCK: u32 = 0o4000;
    pub const SOCK_CLOEXEC: u32 = 0o2000000;

    /// Whether every bit of `flag` is set.
    pub fn contains(self, flag: u32) -> (r: bool)
        ensures
            r == (self.0 & flag == flag),
    {
        self.0 & flag == flag
    }
}

/// The address family word at the start of a socket address.
#[derive(Debug, Clone, Copy, PartialEq, Eq, Structural)]
pub struct SaFamily(pub u16);

impl SaFamily {
    pub fn to_domain(self) -> (r: Domain)
        ensures
            r.0 == self.0 as u32,
    {
        Domain(self.0 as u32)
    }
}

/// An address of the local domain: a family word and a path of 108 bytes, 110 bytes in all.
#[derive(Debug, Clone, Copy)]
pub struct SockAddrUn {
    pub sun_family: SaFamily,
    pub sun_path: [u8; 108],
}

/// The bytes of a local address.
pub open spec fn sockaddr_un_bytes(a: SockAddrUn) -> Seq<u8> {
    u16_bytes(a.sun_family.0) + a.sun_path@
}

impl SockAddrUn {
    /// The size of the structure.
    pub const SIZE: usize = 110;

    /// Reads a local address from its first 110 bytes; a shorter buffer is `ENOMEM`.
    pub fn from_bytes(buf: &[u8]) -> (r: Result<Self, LxError>)
        ensures
            buf@.len() < 110 ==> r == Err::<SockAddrUn, LxError>(LxError(LxError::ENOMEM)),
            buf@.len() >= 110 ==> r is Ok && r->Ok_0.sun_family.0 == u16_at(buf@, 0)
                && r->Ok_0.sun_path@ == buf@.subrange(2, 110),
    {
        if buf.len() < Self::SIZE {
            return Err(LxError(LxError::ENOMEM));
        }
        let mut path = [0u8; 108];
        let mut i: usize = 0;
        while i < 108
            invariant
                i <= 108,
                buf@.len() >= 110,
                forall|j: int| 0 <= j < i ==> path@[j] == buf@[j + 2],
            decreases 108 - i,
        {
            path[i] = buf[i + 2];
            i = i + 1;
        }
        assert(path@ =~= buf@.subrange(2, 110));
        Ok(SockAddrUn { sun_family: SaFamily(read_u16(buf, 0)), sun_path: path })
    }

    /// Writes the first `size` bytes of the address into `buf`; a shorter buffer is `ENOMEM`.
    /// Answers the size of the structure.
    pub fn write_to(&self, buf: &mut [u8], size: usize) -> (r: Result<usize, LxError>)
        requires
            size <= 110,
        ensures
            old(buf)@.len() < size ==> r == Err::<usize, LxError>(LxError(LxError::ENOMEM))
                && final(buf)@ == old(buf)@,
            old(buf)@.len() >= size ==> r == Ok::<usize, LxError>(110) && final(buf)@
                == sockaddr_un_bytes(*self).take(size as int) + old(buf)@.skip(size as int),
    {
        if buf.len() < size {
            return Err(LxError(LxError::ENOMEM));
        }
        let ghost image = sockaddr_un_bytes(*self);
        let ghost start = buf@;
        let mut i: usize = 0;
        while i < size
            invariant
                i <= size <= 110,
                start.len() >= size,
                image == sockaddr_un_bytes(*self),
                buf@.len() == start.len(),
                forall|j: int| 0 <= j < i ==> buf@[j] == image[j],
                forall|j: int| i <= j < buf@.len() ==> buf@[j] == start[j],
            decreases size - i,
        {
            let v: u8 = if i == 0 {
                (self.sun_family.0 % 256) as u8
            } else if i == 1 {
                (self.sun_family.0 / 256) as u8
            } else {
                self.sun_path[i - 2]
            };
            buf[i] = v;
            i = i + 1;
        }
        assert(buf@ =~= image.take(size as int) + start.skip(size as int));
        Ok(Self::SIZE)
    }
}

/// An IPv4 address, as its four bytes in memory order.
#[derive(Debug, Clone, Copy, PartialEq, Eq, Structural)]
pub struct InAddr(pub u32);

impl From<u32> for InAddr {
    fn from(s_addr: u32) -> (r: Self) {
        InAddr(s_addr)
    }
}

impl vstd::std_specs::convert::FromSpecImpl<u32> for InAddr {
    open spec fn obeys_from_spec() -> bool {
        true
    }

    open spec fn from_spec(v: u32) -> InAddr {
        InAddr(v)
    }
}

/// An address of the IPv4 domain: family, port, address and eight zero bytes, 16 bytes in all.
#[derive(Debug, Clone, Copy)]
pub struct SockAddrIn {
    pub sin_family: SaFamily,
    pub sin_port: u16,
    pub sin_addr: InAddr,
    pub sin_zero: [u8; 8],
}

/// The bytes of an IPv4 address in the Linux layout.
pub open spec fn sockaddr_in_bytes(a: SockAddrIn) -> Seq<u8> {
    u16_bytes(a.sin_family.0) + u16_bytes(a.sin_port) + u32_bytes(a.sin_addr.0) + a.sin_zero@
}

/// The bytes of an IPv4 address in the Darwin layout: length, family, port, address and eight
/// zero bytes.
pub open spec fn apple_sockaddr_in_bytes(a: SockAddrIn) -> Seq<u8> {
    seq![16u8, 2u8] + u16_bytes(a.sin_port) + u32_bytes(a.sin_addr.0) + Seq::new(8, |i: int| 0u8)
}

impl SockAddrIn {
    /// The size of the structure, the same on both platforms.
    pub const SIZE: usize = 16;

    /// Reads an IPv4 address from its first 16 bytes; a shorter buffer is `ENOMEM`.
    pub fn from_bytes(buf: &[u8]) -> (r: Result<Self, LxError>)
        ensures
            buf@.len() < 16 ==> r == Err::<SockAddrIn, LxError>(LxError(LxError::ENOMEM)),
            buf@.len() >= 16 ==> r is Ok && sockaddr_in_bytes(r->Ok_0) == buf@.take(16),
    {
        if buf.len() < Self::SIZE {
            return Err(LxError(LxError::ENOMEM));
        }
        let zero = [buf[8], buf[9], buf[10], buf[11], buf[12], buf[13], buf[14], buf[15]];
        let r = SockAddrIn {
            sin_family: SaFamily(read_u16(buf, 0)),
            sin_port: read_u16(buf, 2),
            sin_addr: InAddr(read_u32(buf, 4)),
            sin_zero: zero,
        };
        assert(sockaddr_in_bytes(r) =~= buf@.take(16));
        Ok(r)
    }

    /// Writes the address into the first 16 bytes of `buf`; a shorter buffer is `ENOMEM`.
    /// Answers the size of the structure.
    pub fn write_to(&self, buf: &mut [u8]) -> (r: Result<usize, LxError>)
        ensures
            old(buf)@.len() < 16 ==> r == Err::<usize, LxError>(LxError(LxError::ENOMEM))
                && final(buf)@ == old(buf)@,
            old(buf)@.len() >= 16 ==> r == Ok::<usize, LxError>(16) && final(buf)@
                == sockaddr_in_bytes(*self) + old(buf)@.skip(16),
    {
        if buf.len() < Self::SIZE {
            return Err(LxError(LxError::ENOMEM));
        }
        let ghost start = buf@;
        write_u16(buf, 0, self.sin_family.0);
        write_u16(buf, 2, self.sin_port);
        write_u32(buf, 4, self.sin_addr.0);
        let mut i: usize = 0;
        while i < 8
            invariant
                i <= 8,
                buf@.len() == start.len(),
                start.len() >= 16,
                buf@.subrange(0, 2) == u16_bytes(self.sin_family.0),
                buf@.subrange(2, 4) == u16_bytes(self.sin_port),
                buf@.subrange(4, 8) == u32_bytes(self.sin_addr.0),
                forall|j: int| 0 <= j < i ==> buf@[8 + j] == self.sin_zero@[j],
                forall|j: int| 8 + i <= j < buf@.len() ==> buf@[j] == start[j],
            decreases 8 - i,
        {
            buf[8 + i] = self.sin_zero[i];
            i = i + 1;
        }
        assert(buf@ =~= sockaddr_in_bytes(*self) + start.skip(16));
        Ok(Self::SIZE)
    }

    /// Reads an IPv4 address from the Darwin layout: the port and the address, with the
    /// family set and the padding zero. A buffer shorter than 16 bytes is `ENOMEM`.
    pub fn from_apple(buf: &[u8]) -> (r: Result<Self, LxError>)
        ensures
            buf@.len() < 16 ==> r == Err::<SockAddrIn, LxError>(LxError(LxError::ENOMEM)),
            buf@.len() >= 16 ==> r is Ok && r->Ok_0.sin_family.0 == Domain::PF_INET
                && r->Ok_0.sin_port == u16_at(buf@, 2) && r->Ok_0.sin_addr.0 == u32_at(buf@, 4)
                && r->Ok_0.sin_zero@ == Seq::new(8, |i: int| 0u8),
    {
        if buf.len() < Self::SIZE {
            return Err(LxError(LxError::ENOMEM));
        }
        let r = SockAddrIn {
            sin_family: SaFamily(Domain::PF_INET as u16),
            sin_port: read_u16(buf, 2),
            sin_addr: InAddr::from(read_u32(buf, 4)),
            sin_zero: [0, 0, 0, 0, 0, 0, 0, 0],
        };
        assert(r.sin_zero@ =~= Seq::new(8, |i: int| 0u8));
        Ok(r)
    }

    /// Writes the address into the first 16 bytes of `buf` in the Darwin layout; a shorter
    /// buffer is `ENOMEM`.
    pub fn to_apple(&self, buf: &mut [u8]) -> (r: Result<(), LxError>)
        ensures
            old(buf)@.len() < 16 ==> r == Err::<(), LxError>(LxError(LxError::ENOMEM))
                && final(buf)@ == old(buf)@,
            old(buf)@.len() >= 16 ==> r is Ok && final(buf)@ == apple_sockaddr_in_bytes(*self)
                + old(buf)@.skip(16),
    {
        if buf.len() < Self::SIZE {
            return Err(LxError(LxError::ENOMEM));
        }
        let ghost start = buf@;
        buf[0] = 16;
        buf[1] = 2;
        write_u16(buf, 2, self.sin_port);
        write_u32(buf, 4, self.sin_addr.0);
        let mut i: usize = 8;
        while i < 16
            invariant
                8 <= i <= 16,
                buf@.len() == start.len(),
                start.len() >= 16,
                buf@[0] == 16,
                buf@[1] == 2,
                buf@.subrange(2, 4) == u16_bytes(self.sin_port),
                buf@.subrange(4, 8) == u32_bytes(self.sin_addr.0),
                forall|j: int| 8 <= j < i ==> buf@[j] == 0,
                forall|j: int| i <= j < buf@.len() ==> buf@[j] == start[j],
            decreases 16 - i,
        {
            buf[i] = 0;
            i = i + 1;
        }
        assert(buf@ =~= apple_sockaddr_in_bytes(*self) + start.skip(16));
        Ok(())
    }
}

/// A socket address of one of the supported domains; a local address keeps the length it was
/// given with.
#[derive(Debug, Clone, Copy)]
pub enum SockAddr {
    Un(SockAddrUn, usize),
    In(SockAddrIn),
}

impl SockAddr {
    /// Reads a socket address by the domain in its first two bytes: a local or an IPv4
    /// address, else `EAFNOSUPPORT`.
    pub fn from_bytes(buf: &[u8]) -> (r: Result<Self, LxError>)
        requires
            buf@.len() >= 2,
        ensures
            u16_at(buf@, 0) == Domain::PF_LOCAL ==> match r {
                Ok(SockAddr::Un(un, len)) => len == buf@.len() && buf@.len() >= 110
                    && un.sun_family.0 == u16_at(buf@, 0) && un.sun_path@ == buf@.subrange(2, 110),
                Err(e) => buf@.len() < 110 && e == LxError(LxError::ENOMEM),
                _ => false,
            },
            u16_at(buf@, 0) == Domain::PF_INET ==> match r {
                Ok(SockAddr::In(a)) => buf@.len() >= 16 && sockaddr_in_bytes(a) == buf@.take(16),
                Err(e) => buf@.len() < 16 && e == LxError(LxError::ENOMEM),
                _ => false,
            },
            u16_at(buf@, 0) != Domain::PF_LOCAL && u16_at(buf@, 0) != Domain::PF_INET ==> r
                == Err::<SockAddr, LxError>(LxError(LxError::EAFNOSUPPORT)),
    {
        let domain = SaFamily(read_u16(buf, 0)).to_domain();
        if domain.0 == Domain::PF_LOCAL {
            match SockAddrUn::from_bytes(buf) {
                Ok(un) => Ok(SockAddr::Un(un, buf.len())),
                Err(e) => Err(e),
            }
        } else if domain.0 == Domain::PF_INET {
            match SockAddrIn::from_bytes(buf) {
                Ok(a) => Ok(SockAddr::In(a)),
                Err(e) => Err(e),
            }
        } else {
            Err(LxError(LxError::EAFNOSUPPORT))
        }
    }

    /// Writes the address into `buf`: a local address its first bytes up to the length it was
    /// given with, an IPv4 address all of them.
    pub fn write_to(&self, buf: &mut [u8]) -> (r: Result<usize, LxError>)
        requires
            self matches SockAddr::Un(_, len) ==> len <= 110,
        ensures
            match *self {
                SockAddr::Un(un, len) => if old(buf)@.len() < len {
                    r == Err::<usize, LxError>(LxError(LxError::ENOMEM)) && final(buf)@ == old(
                        buf,
                    )@
                } else {
                    r == Ok::<usize, LxError>(110) && final(buf)@ == sockaddr_un_bytes(un).take(
                        len as int,
                    ) + old(buf)@.skip(len as int)
                },
                SockAddr::In(a) => if old(buf)@.len() < 16 {
                    r == Err::<usize, LxError>(LxError(LxError::ENOMEM)) && final(buf)@ == old(
                        buf,
                    )@
                } else {
                    r == Ok::<usize, LxError>(16) && final(buf)@ == sockaddr_in_bytes(a) + old(
                        buf,
                    )@.skip(16)
                },
            },
    {
        match self {
            SockAddr::Un(addr, len) => addr.write_to(buf, *len),
            SockAddr::In(addr) => addr.write_to(buf),
        }
    }
}

/// Reading back an IPv4 address that was written gives the address.
pub proof fn lemma_sockaddr_in_round_trip(a: SockAddrIn, rest: Seq<u8>)
    ensures
        ({
            let b = sockaddr_in_bytes(a) + rest;
            &&& u16_at(b, 0) == a.sin_family.0
            &&& u16_at(b, 2) == a.sin_port
            &&& u32_at(b, 4) == a.sin_addr.0
            &&& b.subrange(8, 16) == a.sin_zero@
        }),
{
    let b = sockaddr_in_bytes(a) + rest;
    assert(b.subrange(8, 16) =~= a.sin_zero@);
}

/// The Darwin `linger` structure, as plain values.
#[derive(Debug, Clone, Copy, PartialEq, Eq, Structural)]
pub struct DarwinLinger {
    pub l_onoff: i32,
    pub l_linger: i32,
}

/// The value of the `SO_LINGER` option.
#[derive(Debug, Clone, Copy, PartialEq, Eq, Structural)]
pub struct Linger {
    pub l_onoff: i32,
    pub l_linger: i32,
}

impl FromApple for Linger {
    type Apple = DarwinLinger;

    fn from_apple(apple: DarwinLinger) -> (r: Result<Self, LxError>)
        ensures
            r == Ok::<Linger, LxError>(Linger { l_onoff: apple.l_onoff, l_linger: apple.l_linger }),
    {
        Ok(Linger { l_onoff: apple.l_onoff, l_linger: apple.l_linger })
    }
}

impl ToApple for Linger {
    type Apple = DarwinLinger;

    fn to_apple(self) -> (r: Result<DarwinLinger, LxError>)
        ensures
            r == Ok::<DarwinLinger, LxError>(
                DarwinLinger { l_onoff: self.l_onoff, l_linger: self.l_linger },
            ),
    {
        Ok(DarwinLinger { l_onoff: self.l_onoff, l_linger: self.l_linger })
    }
}

/// The header of a `sendmsg` or `recvmsg` call; addresses are kept as numbers.
#[derive(Debug, Clone, Copy, PartialEq, Eq, Structural)]
pub struct MsgHdr {
    pub msg_name: u64,
    pub msg_namelen: u32,
    pub msg_iov: u64,
    pub msg_iovlen: i32,
    pub _pad1: i32,
    pub msg_control: u64,
    pub msg_controllen: u32,
    pub _pad2: i32,
    pub msg_flags: i32,
}

impl MsgHdr {
    /// The address and the length of the peer address.
    pub fn name(&self) -> (r: (u64, usize))
        ensures
            r == (self.msg_name, self.msg_namelen as usize),
    {
        (self.msg_name, self.msg_namelen as usize)
    }

    /// The address and the number of the buffers.
    pub fn iov(&self) -> (r: (u64, usize))
        ensures
            r == (self.msg_iov, self.msg_iovlen as usize),
    {
        (self.msg_iov, self.msg_iovlen as usize)
    }

    /// The address and the length of the control data.
    pub fn control(&self) -> (r: (u64, usize))
        ensures
            r == (self.msg_control, self.msg_controllen as usize),
    {
        (self.msg_control, self.msg_controllen as usize)
    }
}

/// A message header of `sendmmsg` or `recvmmsg`, with the length transferred.
#[derive(Debug, Clone, Copy, PartialEq, Eq, Structural)]
pub struct MmsgHdr {
    pub msg_hdr: MsgHdr,
    pub msg_len: u32,
}

/// Darwin `PF_LOCAL`.
pub const APPLE_PF_LOCAL: i32 = 1;
/// Darwin `PF_INET`.
pub const APPLE_PF_INET: i32 = 2;
/// Darwin `PF_INET6`.
pub const APPLE_PF_INET6: i32 = 30;

/// Each socket domain stands for the Darwin domain of the same name.
pub proof fn lemma_domain_by_name()
    ensures
        Domain::apple_of(Domain::PF_LOCAL) == Some(APPLE_PF_LOCAL),
        Domain::linux_of(APPLE_PF_LOCAL) == Some(Domain::PF_LOCAL),
        Domain::apple_of(Domain::PF_INET) == Some(APPLE_PF_INET),
        Domain::linux_of(APPLE_PF_INET) == Some(Domain::PF_INET),
        Domain::apple_of(Domain::PF_INET6) == Some(APPLE_PF_INET6),
        Domain::linux_of(APPLE_PF_INET6) == Some(Domain::PF_INET6),
{
}

/// Darwin `SOCK_STREAM`.
pub const APPLE_SOCK_STREAM: i32 = 1;
/// Darwin `SOCK_DGRAM`.
pub const APPLE_SOCK_DGRAM: i32 = 2;
/// Darwin `SOCK_RAW`.
pub const APPLE_SOCK_RAW: i32 = 3;

/// Each socket kind stands for the Darwin kind of the same name.
pub proof fn lemma_socket_kind_by_name()
    ensures
        SocketKind::apple_of(SocketKind::SOCK_STREAM) == Some(APPLE_SOCK_STREAM),
        SocketKind::linux_of(APPLE_SOCK_STREAM) == Some(SocketKind::SOCK_STREAM),
        SocketKind::apple_of(SocketKind::SOCK_DGRAM) == Some(APPLE_SOCK_DGRAM),
        SocketKind::linux_of(APPLE_SOCK_DGRAM) == Some(SocketKind::SOCK_DGRAM),
        SocketKind::apple_of(SocketKind::SOCK_RAW) == Some(APPLE_SOCK_RAW),
        SocketKind::linux_of(APPLE_SOCK_RAW) == Some(SocketKind::SOCK_RAW),
{
}

/// Darwin `IPPROTO_IP`.
pub const APPLE_IPPROTO_IP: i32 = 0;
/// Darwin `IPPROTO_ICMP`.
pub const APPLE_IPPROTO_ICMP: i32 = 1;
/// Darwin `IPPROTO_IGMP`.
pub const APPLE_IPPROTO_IGMP: i32 = 2;
/// Darwin `IPPROTO_TCP`.
pub const APPLE_IPPROTO_TCP: i32 = 6;
/// Darwin `IPPROTO_UDP`.
pub const APPLE_IPPROTO_UDP: i32 = 17;
/// Darwin `IPPROTO_IPV6`.
pub const APPLE_IPPROTO_IPV6: i32 = 41;
/// Darwin `IPPROTO_ICMPV6`.
pub const APPLE_IPPROTO_ICMPV6: i32 = 58;

/// Each protocol stands for the Darwin protocol of the same name.
pub proof fn lemma_protocol_by_name()
    ensures
        Protocol::apple_of(Protocol::IPPROTO_IP) == Some(APPLE_IPPROTO_IP),
        Protocol::linux_of(APPLE_IPPROTO_IP) == Some(Protocol::IPPROTO_IP),
        Protocol::apple_of(Protocol::IPPROTO_ICMP) == Some(APPLE_IPPROTO_ICMP),
        Protocol::linux_of(APPLE_IPPROTO_ICMP) == Some(Protocol::IPPROTO_ICMP),
        Protocol::apple_of(Protocol::IPPROTO_IGMP) == Some(APPLE_IPPROTO_IGMP),
        Protocol::linux_of(APPLE_IPPROTO_IGMP) == Some(Protocol::IPPROTO_IGMP),
        Protocol::apple_of(Protocol::IPPROTO_TCP) == Some(APPLE_IPPROTO_TCP),
        Protocol::linux_of(APPLE_IPPROTO_TCP) == Some(Protocol::IPPROTO_TCP),
        Protocol::apple_of(Protocol::IPPROTO_UDP) == Some(APPLE_IPPROTO_UDP),
        Protocol::linux_of(APPLE_IPPROTO_UDP) == Some(Protocol::IPPROTO_UDP),
        Protocol::apple_of(Protocol::IPPROTO_IPV6) == Some(APPLE_IPPROTO_IPV6),
        Protocol::linux_of(APPLE_IPPROTO_IPV6) == Some(Protocol::IPPROTO_IPV6),
        Protocol::apple_of(Protocol::IPPROTO_ICMPV6) == Some(APPLE_IPPROTO_ICMPV6),
        Protocol::linux_of(APPLE_IPPROTO_ICMPV6) == Some(Protocol::IPPROTO_ICMPV6),
{
}

/// Darwin `SO_DEBUG`.
pub const APPLE_SO_DEBUG: i32 = 1;
/// Darwin `SO_REUSEADDR`.
pub const APPLE_SO_REUSEADDR: i32 = 4;
/// Darwin `SO_TYPE`.
pub const APPLE_SO_TYPE: i32 = 4104;
/// Darwin `SO_ERROR`.
pub const APPLE_SO_ERROR: i32 = 4103;
/// Darwin `SO_DONTROUTE`.
pub const APPLE_SO_DONTROUTE: i32 = 16;
/// Darwin `SO_BROADCAST`.
pub const APPLE_SO_BROADCAST: i32 = 32;
/// Darwin `SO_SNDBUF`.
pub const APPLE_SO_SNDBUF: i32 = 4097;
/// Darwin `SO_RCVBUF`.
pub const APPLE_SO_RCVBUF: i32 = 4098;
/// Darwin `SO_KEEPALIVE`.
pub const APPLE_SO_KEEPALIVE: i32 = 8;
/// Darwin `SO_OOBINLINE`.
pub const APPLE_SO_OOBINLINE: i32 = 256;
/// Darwin `SO_LINGER`.
pub const APPLE_SO_LINGER: i32 = 128;
/// Darwin `SO_REUSEPORT`.
pub const APPLE_SO_REUSEPORT: i32 = 512;
/// Darwin `SO_RCVLOWAT`.
pub const APPLE_SO_RCVLOWAT: i32 = 4100;
/// Darwin `SO_SNDLOWAT`.
pub const APPLE_SO_SNDLOWAT: i32 = 4099;
/// Darwin `SO_RCVTIMEO`.
pub const APPLE_SO_RCVTIMEO: i32 = 4102;
/// Darwin `SO_SNDTIMEO`.
pub const APPLE_SO_SNDTIMEO: i32 = 4101;
/// Darwin `SO_TIMESTAMP`.
pub const APPLE_SO_TIMESTAMP: i32 = 1024;
/// Darwin `SO_ACCEPTCONN`.
pub const APPLE_SO_ACCEPTCONN: i32 = 2;

/// Each socket option stands for the Darwin option of the same name.
pub proof fn lemma_sockopt_by_name()
    ensures
        SockOpt::apple_of(SockOpt::SO_DEBUG) == Some(APPLE_SO_DEBUG),
        SockOpt::linux_of(APPLE_SO_DEBUG) == Some(SockOpt::SO_DEBUG),
        SockOpt::apple_of(SockOpt::SO_REUSEADDR) == Some(APPLE_SO_REUSEADDR),
        SockOpt::linux_of(APPLE_SO_REUSEADDR) == Some(SockOpt::SO_REUSEADDR),
        SockOpt::apple_of(SockOpt::SO_TYPE) == Some(APPLE_SO_TYPE),
        SockOpt::linux_of(APPLE_SO_TYPE) == Some(SockOpt::SO_TYPE),
        SockOpt::apple_of(SockOpt::SO_ERROR) == Some(APPLE_SO_ERROR),
        SockOpt::linux_of(APPLE_SO_ERROR) == Some(SockOpt::SO_ERROR),
        SockOpt::apple_of(SockOpt::SO_DONTROUTE) == Some(APPLE_SO_DONTROUTE),
        SockOpt::linux_of(APPLE_SO_DONTROUTE) == Some(SockOpt::SO_DONTROUTE),
        SockOpt::apple_of(SockOpt::SO_BROADCAST) == Some(APPLE_SO_BROADCAST),
        SockOpt::linux_of(APPLE_SO_BROADCAST) == Some(SockOpt::SO_BROADCAST),
        SockOpt::apple_of(SockOpt::SO_SNDBUF) == Some(APPLE_SO_SNDBUF),
        SockOpt::linux_of(APPLE_SO_SNDBUF) == Some(SockOpt::SO_SNDBUF),
        SockOpt::apple_of(SockOpt::SO_RCVBUF) == Some(APPLE_SO_RCVBUF),
        SockOpt::linux_of(APPLE_SO_RCVBUF) == Some(SockOpt::SO_RCVBUF),
        SockOpt::apple_of(SockOpt::SO_KEEPALIVE) == Some(APPLE_SO_KEEPALIVE),
        SockOpt::linux_of(APPLE_SO_KEEPALIVE) == Some(SockOpt::SO_KEEPALIVE),
        SockOpt::apple_of(SockOpt::SO_OOBINLINE) == Some(APPLE_SO_OOBINLINE),
        SockOpt::linux_of(APPLE_SO_OOBINLINE) == Some(SockOpt::SO_OOBINLINE),
        SockOpt::apple_of(SockOpt::SO_LINGER) == Some(APPLE_SO_LINGER),
        SockOpt::linux_of(APPLE_SO_LINGER) == Some(SockOpt::SO_LINGER),
        SockOpt::apple_of(SockOpt::SO_REUSEPORT) == Some(APPLE_SO_REUSEPORT),
        SockOpt::linux_of(APPLE_SO_REUSEPORT) == Some(SockOpt::SO_REUSEPORT),
        SockOpt::apple_of(SockOpt::SO_RCVLOWAT) == Some(APPLE_SO_RCVLOWAT),
        SockOpt::linux_of(APPLE_SO_RCVLOWAT) == Some(SockOpt::SO_RCVLOWAT),
        SockOpt::apple_of(SockOpt::SO_SNDLOWAT) == Some(APPLE_SO_SNDLOWAT),
        SockOpt::linux_of(APPLE_SO_SNDLOWAT) == Some(SockOpt::SO_SNDLOWAT),
        SockOpt::apple_of(SockOpt::SO_RCVTIMEO) == Some(APPLE_SO_RCVTIMEO),
        SockOpt::linux_of(APPLE_SO_RCVTIMEO) == Some(SockOpt::SO_RCVTIMEO),
        SockOpt::apple_of(SockOpt::SO_SNDTIMEO) == Some(APPLE_SO_SNDTIMEO),
        SockOpt::linux_of(APPLE_SO_SNDTIMEO) == Some(SockOpt::SO_SNDTIMEO),
        SockOpt::apple_of(SockOpt::SO_TIMESTAMP) == Some(APPLE_SO_TIMESTAMP),
        SockOpt::linux_of(APPLE_SO_TIMESTAMP) == Some(SockOpt::SO_TIMESTAMP),
        SockOpt::apple_of(SockOpt::SO_ACCEPTCONN) == Some(APPLE_SO_ACCEPTCONN),
        SockOpt::linux_of(APPLE_SO_ACCEPTCONN) == Some(SockOpt::SO_ACCEPTCONN),
        SockOpt::apple_of(SockOpt::SO_NO_CHECK) is None,
        SockOpt::apple_of(SockOpt::SO_PRIORITY) is None,
        SockOpt::apple_of(SockOpt::SO_PASSCRED) is None,
        SockOpt::apple_of(SockOpt::SO_PEERSEC) is None,
        SockOpt::apple_of(SockOpt::SO_SNDBUFFORCE) is None,
        SockOpt::apple_of(SockOpt::SO_RCVBUFFORCE) is None,
        SockOpt::apple_of(SockOpt::SO_PROTOCOL) is None,
        SockOpt::apple_of(SockOpt::SO_DOMAIN) is None,
{
}

/// Darwin `SOL_SOCKET`.
pub const APPLE_SOL_SOCKET: i32 = 65535;
/// Darwin `SOL_IP`.
pub const APPLE_SOL_IP: i32 = 0;
/// Darwin `SOL_TCP`.
pub const APPLE_SOL_TCP: i32 = 6;
/// Darwin `SOL_UDP`.
pub const APPLE_SOL_UDP: i32 = 17;
/// Darwin `SOL_IPV6`.
pub const APPLE_SOL_IPV6: i32 = 41;

/// Each option level stands for the Darwin level of the same name.
pub proof fn lemma_sockopt_level_by_name()
    ensures
        SockOptLevel::apple_of(SockOptLevel::SOL_SOCKET) == Some(APPLE_SOL_SOCKET),
        SockOptLevel::linux_of(APPLE_SOL_SOCKET) == Some(SockOptLevel::SOL_SOCKET),
        SockOptLevel::apple_of(SockOptLevel::SOL_IP) == Some(APPLE_SOL_IP),
        SockOptLevel::linux_of(APPLE_SOL_IP) == Some(SockOptLevel::SOL_IP),
        SockOptLevel::apple_of(SockOptLevel::SOL_TCP) == Some(APPLE_SOL_TCP),
        SockOptLevel::linux_of(APPLE_SOL_TCP) == Some(SockOptLevel::SOL_TCP),
        SockOptLevel::apple_of(SockOptLevel::SOL_UDP) == Some(APPLE_SOL_UDP),
        SockOptLevel::linux_of(APPLE_SOL_UDP) == Some(SockOptLevel::SOL_UDP),
        SockOptLevel::apple_of(SockOptLevel::SOL_IPV6) == Some(APPLE_SOL_IPV6),
        SockOptLevel::linux_of(APPLE_SOL_IPV6) == Some(SockOptLevel::SOL_IPV6),
{
}

/// Darwin `SHUT_RD`.
pub const APPLE_SHUT_RD: i32 = 0;
/// Darwin `SHUT_WR`.
pub const APPLE_SHUT_WR: i32 = 1;
/// Darwin `SHUT_RDWR`.
pub const APPLE_SHUT_RDWR: i32 = 2;

/// Each way of shutting a socket down stands for the Darwin way of the same name.
pub proof fn lemma_shutdown_how_by_name()
    ensures
        ShutdownHow::apple_of(ShutdownHow::SHUT_RD) == Some(APPLE_SHUT_RD),
        ShutdownHow::linux_of(APPLE_SHUT_RD) == Some(ShutdownHow::SHUT_RD),
        ShutdownHow::apple_of(ShutdownHow::SHUT_WR) == Some(APPLE_SHUT_WR),
        ShutdownHow::linux_of(APPLE_SHUT_WR) == Some(ShutdownHow::SHUT_WR),
        ShutdownHow::apple_of(ShutdownHow::SHUT_RDWR) == Some(APPLE_SHUT_RDWR),
        ShutdownHow::linux_of(APPLE_SHUT_RDWR) == Some(ShutdownHow::SHUT_RDWR),
{
}

} // verus!
