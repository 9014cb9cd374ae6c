//! The messages that a MacTux process exchanges with the MacTux server, and their framing on the
//! wire: each message is its length as 8 little-endian bytes followed by that many bytes.

use crate::bytes::{le_bytes, le_value, push_le};
use crate::error::LxError;
use crate::fs::{Dirent64, Statx};
use crate::io::Whence;
use crate::misc::{LogLevel, SysInfo};
use core::time::Duration;
use vstd::prelude::*;

verus! {

/// The version that client and server must agree on.
pub open spec fn protocol_version() -> Seq<char> {
    "0.1.0"@
}

/// A handshake request.
#[derive(Debug, Clone, Copy, PartialEq, Eq)]
pub struct HandshakeRequest {
    pub magic: [u8; 8],
}

impl HandshakeRequest {
    /// The magic number: `MACTUXHQ`.
    pub open spec fn magic() -> Seq<u8> {
        seq![0x4du8, 0x41, 0x43, 0x54, 0x55, 0x58, 0x48, 0x51]
    }

    /// Creates a new [`HandshakeRequest`] instance, in its only valid form.
    pub fn new() -> (r: Self)
        ensures
            r.magic@ == Self::magic(),
    {
        let r = HandshakeRequest { magic: [0x4d, 0x41, 0x43, 0x54, 0x55, 0x58, 0x48, 0x51] };
        assert(r.magic@ =~= Self::magic());
        r
    }
}

/// A handshake response.
#[derive(Debug, Clone)]
pub struct HandshakeResponse {
    pub magic: [u8; 8],
    pub version: String,
}

impl HandshakeResponse {
    /// The magic number: `MACTUXHS`.
    pub open spec fn magic() -> Seq<u8> {
        seq![0x4du8, 0x41, 0x43, 0x54, 0x55, 0x58, 0x48, 0x53]
    }

    /// Creates a new [`HandshakeResponse`] instance that fits the current protocol version.
    pub fn new() -> (r: Self)
        ensures
            r.magic@ == Self::magic(),
            r.version@ == protocol_version(),
    {
        let r = HandshakeResponse {
            magic: [0x4d, 0x41, 0x43, 0x54, 0x55, 0x58, 0x48, 0x53],
            version: String::from_str("0.1.0"),
        };
        assert(r.magic@ =~= Self::magic());
        r
    }

    /// Whether a server's response is the one this client expects: the right magic number and
    /// the same protocol version.
    pub fn is_expected(&self) -> (r: bool)
        ensures
            r == (self.magic@ == Self::magic() && self.version@ == protocol_version()),
    {
        let expected = HandshakeResponse::new();
        let mut same = true;
        let mut i: usize = 0;
        while i < 8
            invariant
                i <= 8,
                expected.magic@ == Self::magic(),
                same == (forall|j: int| 0 <= j < i ==> self.magic@[j] == Self::magic()[j]),
            decreases 8 - i,
        {
            if self.magic[i] != expected.magic[i] {
                same = false;
            }
            i = i + 1;
        }
        if !same {
            assert(self.magic@ != Self::magic());
        } else {
            assert(self.magic@ =~= Self::magic());
        }
        same && self.version == expected.version
    }
}

/// A node name and a domain name.
#[derive(Debug, Clone)]
pub struct NetworkNames {
    pub nodename: Vec<u8>,
    pub domainname: Vec<u8>,
}

/// What a control operation (`ioctl`, `fcntl`) on a virtual file descriptor reads and writes:
/// a positive size is a buffer of that many bytes at the argument's address, zero is nothing,
/// and a negative size is the argument itself.
#[derive(Debug, Clone, Copy, PartialEq, Eq, Structural)]
pub struct VfdAvailCtrl {
    pub in_size: isize,
    pub out_size: isize,
}

/// The outcome of a control operation: its status and the bytes it writes back.
#[derive(Debug, Clone)]
pub struct CtrlOutput {
    pub status: i32,
    pub blob: Vec<u8>,
}

/// A request to the server.
#[derive(Debug, Clone)]
pub enum Request {
    SetMountNamespace(u64),
    Umount(Vec<u8>, u32),

    Open(Vec<u8>, u32, u32),
    Access(Vec<u8>, u32),
    Unlink(Vec<u8>),
    Rmdir(Vec<u8>),
    Symlink(Vec<u8>, Vec<u8>),
    Rename(Vec<u8>, Vec<u8>),
    Mkdir(Vec<u8>, u32),
    GetSockPath(Vec<u8>, bool),

    VirtualFdRead(u64, usize),
    VirtualFdPread(u64, i64, usize),
    VirtualFdWrite(u64, Vec<u8>),
    VirtualFdPwrite(u64, i64, Vec<u8>),
    VirtualFdLseek(u64, Whence, i64),
    VirtualFdIoctlQuery(u64, u32),
    VirtualFdIoctl(u64, u32, Vec<u8>),
    VirtualFdFcntl(u64, u32, Vec<u8>),
    VirtualFdGetDents64(u64),
    VirtualFdStat(u64),
    VirtualFdTruncate(u64, u64),
    VirtualFdChown(u64, u32, u32),
    VirtualFdDup(u64),
    VirtualFdClose(u64),
    VirtualFdOrigPath(u64),
    VirtualFdReadlink(u64),

    EventFd(u64, u32),

    GetNetworkNames,
    SetNetworkNames(NetworkNames),
    SysInfo,

    WriteSyslog(LogLevel, Vec<u8>),

    BeforeFork,
    AfterFork(i32),
    AfterExec,

    CallInterruptible(InterruptibleRequest),
}

/// A request whose wait can be interrupted by the client.
#[derive(Debug, Clone)]
pub enum InterruptibleRequest {
    VirtualFdPoll(Vec<(u64, u16)>, Option<Duration>),
}

/// A response to a request.
#[derive(Debug, Clone)]
pub enum Response {
    Nothing,
    NativePath(Vec<u8>),
    LxPath(Vec<u8>),
    Vfd(u64),
    Bytes(Vec<u8>),
    Length(usize),
    Offset(i64),
    CtrlOutput(CtrlOutput),
    VfdAvailCtrl(VfdAvailCtrl),
    Stat(Statx),
    Dirent64(Dirent64),
    NetworkNames(NetworkNames),
    SysInfo(SysInfo),
    Poll(u64, u16),
    Error(LxError),
}

/// The frame of a message: its length as 8 little-endian bytes, then the message.
pub open spec fn frame(payload: Seq<u8>) -> Seq<u8> {
    le_bytes(payload.len() as u64, 8) + payload
}

/// Frames a message for the wire.
pub fn encode_frame(payload: &[u8]) -> (r: Vec<u8>)
    requires
        payload@.len() <= u64::MAX,
    ensures
        r@ == frame(payload@),
{
    let mut r: Vec<u8> = Vec::new();
    push_le(&mut r, payload.len() as u64, 8);
    let ghost head = r@;
    let mut i: usize = 0;
    while i < payload.len()
        invariant
            i <= payload@.len(),
            r@ == head + payload@.take(i as int),
        decreases payload@.len() - i,
    {
        r.push(payload[i]);
        i = i + 1;
        assert(r@ =~= head + payload@.take(i as int));
    }
    assert(payload@.take(payload@.len() as int) =~= payload@);
    assert(head =~= le_bytes(payload@.len() as u64, 8));
    r
}

/// Reads the length of the message that a frame header announces.
pub fn frame_len(header: &[u8; 8]) -> (r: u64)
    ensures
        r as int == le_value(header@),
{
    let b = header;
    let r = b[0] as u64 + 256 * (b[1] as u64 + 256 * (b[2] as u64 + 256 * (b[3] as u64 + 256 * (
    b[4] as u64 + 256 * (b[5] as u64 + 256 * (b[6] as u64 + 256 * b[7] as u64))))));
    r
}


/// The header of a frame announces the length of the message it carries.
pub proof fn lemma_frame_len_round_trip(payload: Seq<u8>)
    requires
        payload.len() <= u64::MAX,
    ensures
        le_value(frame(payload).take(8)) == payload.len(),
{
    assert(frame(payload).take(8) =~= le_bytes(payload.len() as u64, 8));
    crate::bytes::lemma_le_value_of_le_bytes(payload.len() as u64);
}

/// The message that a received byte stream starts with: the length its first 8 bytes announce,
/// then that many bytes; `None` while the stream is shorter than that.
pub open spec fn frame_body(stream: Seq<u8>) -> Option<Seq<u8>> {
    if stream.len() < 8 {
        None
    } else {
        let n = le_value(stream.take(8));
        if stream.len() < 8 + n {
            None
        } else {
            Some(stream.subrange(8, 8 + n))
        }
    }
}

/// Reads the message at the start of a received byte stream.
pub fn take_frame(stream: &[u8]) -> (r: Option<Vec<u8>>)
    ensures
        match frame_body(stream@) {
            Some(m) => r matches Some(v) && v@ == m,
            None => r is None,
        },
{
    if stream.len() < 8 {
        return None;
    }
    let header: [u8; 8] = [
        stream[0],
        stream[1],
        stream[2],
        stream[3],
        stream[4],
        stream[5],
        stream[6],
        stream[7],
    ];
    assert(header@ =~= stream@.take(8));
    let n = frame_len(&header);
    if ((stream.len() - 8) as u64) < n {
        return None;
    }
    let end = 8 + n as usize;
    let mut v: Vec<u8> = Vec::new();
    let mut k: usize = 8;
    while k < end
        invariant
            8 <= k <= end <= stream@.len(),
            v@ == stream@.subrange(8, k as int),
        decreases end - k,
    {
        v.push(stream[k]);
        k = k + 1;
        assert(v@ =~= stream@.subrange(8, k as int));
    }
    Some(v)
}

/// Whatever follows it, a framed message is received as exactly that message.
pub proof fn lemma_frame_receive(payload: Seq<u8>, rest: Seq<u8>)
    requires
        payload.len() <= u64::MAX,
    ensures
        frame_body(frame(payload) + rest) == Some(payload),
{
    let s = frame(payload) + rest;
    assert(s.take(8) =~= le_bytes(payload.len() as u64, 8));
    crate::bytes::lemma_le_value_of_le_bytes(payload.len() as u64);
    assert(s.subrange(8, 8 + payload.len() as int) =~= payload);
}

} // verus!
