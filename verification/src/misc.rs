//! System identification, system statistics and logging levels.

use crate::error::LxError;
use vstd::prelude::*;

verus! {

/// The length of each field of [`UtsName`].
pub const UTS_LEN: usize = 65;

/// The names that `uname` reports: each field a NUL-padded byte string.
#[derive(Debug, Clone, Copy)]
pub struct UtsName {
    pub sysname: [u8; 65],
    pub nodename: [u8; 65],
    pub release: [u8; 65],
    pub version: [u8; 65],
    pub machine: [u8; 65],
    pub domainname: [u8; 65],
}

/// `s` padded with zero bytes to the length of a [`UtsName`] field.
pub open spec fn uts_field(s: Seq<u8>) -> Seq<u8> {
    s + Seq::new((65 - s.len()) as nat, |i: int| 0u8)
}

/// Converts a byte string to the format that fits [`UtsName`]: `ENOMEM` if it leaves no room
/// for the terminating NUL.
pub fn uname_str(s: &[u8]) -> (r: Result<[u8; 65], LxError>)
    ensures
        match r {
            Ok(data) => s@.len() < 65 && data@ == uts_field(s@),
            Err(e) => s@.len() >= 65 && e == LxError(LxError::ENOMEM),
        },
{
    if s.len() >= 65 {
        return Err(LxError(LxError::ENOMEM));
    }
    let mut data = [0u8; 65];
    let mut i: usize = 0;
    while i < s.len()
        invariant
            i <= s@.len() < 65,
            forall|j: int| 0 <= j < i ==> data@[j] == s@[j],
            forall|j: int| i <= j < 65 ==> data@[j] == 0,
        decreases s@.len() - i,
    {
        data[i] = s[i];
        i = i + 1;
    }
    assert(data@ =~= uts_field(s@));
    Ok(data)
}

/// `s` cut to at most 64 bytes and padded with zero bytes to the length of a field.
pub open spec fn uts_field_truncated(s: Seq<u8>) -> Seq<u8> {
    uts_field(if s.len() > 64 {
        s.take(64)
    } else {
        s
    })
}

/// Copies at most 64 bytes of `s` into a zeroed field.
fn uts_truncated(s: &[u8]) -> (r: [u8; 65])
    ensures
        r@ == uts_field_truncated(s@),
{
    let n = if s.len() > 64 {
        64
    } else {
        s.len()
    };
    let mut data = [0u8; 65];
    let mut i: usize = 0;
    while i < n
        invariant
            i <= n <= 64,
            n <= s@.len(),
            n == (if s@.len() > 64 { 64 } else { s@.len() }),
            forall|j: int| 0 <= j < i ==> data@[j] == s@[j],
            forall|j: int| i <= j < 65 ==> data@[j] == 0,
        decreases n - i,
    {
        data[i] = s[i];
        i = i + 1;
    }
    assert(data@ =~= uts_field_truncated(s@));
    data
}

/// The system name reported: `Linux`.
pub open spec fn sysname_bytes() -> Seq<u8> {
    seq![0x4cu8, 0x69, 0x6e, 0x75, 0x78]
}

/// The machine name reported: `x86_64`.
pub open spec fn machine_bytes() -> Seq<u8> {
    seq![0x78u8, 0x38, 0x36, 0x5f, 0x36, 0x34]
}

/// The kernel release reported: `6.15.8-11-generic`.
pub open spec fn release_bytes() -> Seq<u8> {
    seq![0x36u8, 0x2e, 0x31, 0x35, 0x2e, 0x38, 0x2d, 0x31, 0x31, 0x2d, 0x67, 0x65, 0x6e, 0x65, 0x72, 0x69, 0x63]
}

/// The kernel version reported: `#1~0.1.0-MacTux SMP Fri Aug 28 14:01:22 UTC 2025`.
pub open spec fn version_bytes() -> Seq<u8> {
    seq![
        0x23u8, 0x31, 0x7e, 0x30, 0x2e, 0x31, 0x2e, 0x30, 0x2d, 0x4d, 0x61, 0x63, 0x54, 0x75, 0x78,
        0x20, 0x53, 0x4d, 0x50, 0x20, 0x46, 0x72, 0x69, 0x20, 0x41, 0x75, 0x67, 0x20, 0x32, 0x38,
        0x20, 0x31, 0x34, 0x3a, 0x30, 0x31, 0x3a, 0x32, 0x32, 0x20, 0x55, 0x54, 0x43, 0x20, 0x32,
        0x30, 0x32, 0x35,
    ]
}

/// Fills a field with `s`, known to fit.
fn fixed_field(s: &[u8]) -> (r: [u8; 65])
    requires
        s@.len() < 65,
    ensures
        r@ == uts_field(s@),
{
    match uname_str(s) {
        Ok(d) => d,
        Err(_) => [0u8; 65],
    }
}

/// The system name.
pub fn sysname() -> (r: [u8; 65])
    ensures
        r@ == uts_field(sysname_bytes()),
{
    let b: [u8; 5] = [0x4c, 0x69, 0x6e, 0x75, 0x78];
    assert(b@ =~= sysname_bytes());
    fixed_field(&b)
}

/// The machine name.
pub fn machine() -> (r: [u8; 65])
    ensures
        r@ == uts_field(machine_bytes()),
{
    let b: [u8; 6] = [0x78, 0x38, 0x36, 0x5f, 0x36, 0x34];
    assert(b@ =~= machine_bytes());
    fixed_field(&b)
}

/// The kernel release.
pub fn release() -> (r: [u8; 65])
    ensures
        r@ == uts_field(release_bytes()),
{
    let b: [u8; 17] = [
        0x36, 0x2e, 0x31, 0x35, 0x2e, 0x38, 0x2d, 0x31, 0x31, 0x2d, 0x67, 0x65, 0x6e, 0x65, 0x72,
        0x69, 0x63,
    ];
    assert(b@ =~= release_bytes());
    fixed_field(&b)
}

/// The kernel version.
pub fn version() -> (r: [u8; 65])
    ensures
        r@ == uts_field(version_bytes()),
{
    let b: [u8; 48] = [
        0x23, 0x31, 0x7e, 0x30, 0x2e, 0x31, 0x2e, 0x30, 0x2d, 0x4d, 0x61, 0x63, 0x54, 0x75, 0x78,
        0x20, 0x53, 0x4d, 0x50, 0x20, 0x46, 0x72, 0x69, 0x20, 0x41, 0x75, 0x67, 0x20, 0x32, 0x38,
        0x20, 0x31, 0x34, 0x3a, 0x30, 0x31, 0x3a, 0x32, 0x32, 0x20, 0x55, 0x54, 0x43, 0x20, 0x32,
        0x30, 0x32, 0x35,
    ];
    assert(b@ =~= version_bytes());
    fixed_field(&b)
}

/// The names that `uname` reports, given the node and domain names: each cut to 64 bytes.
pub fn uname(nodename: &[u8], domainname: &[u8]) -> (r: UtsName)
    ensures
        r.sysname@ == uts_field(sysname_bytes()),
        r.nodename@ == uts_field_truncated(nodename@),
        r.release@ == uts_field(release_bytes()),
        r.version@ == uts_field(version_bytes()),
        r.machine@ == uts_field(machine_bytes()),
        r.domainname@ == uts_field_truncated(domainname@),
{
    UtsName {
        sysname: sysname(),
        nodename: uts_truncated(nodename),
        release: release(),
        version: version(),
        machine: machine(),
        domainname: uts_truncated(domainname),
    }
}

/// System statistics, as `sysinfo` reports them.
#[derive(Debug, Clone, Copy)]
pub struct SysInfo {
    pub uptime: i64,
    pub loads: [u64; 3],
    pub totalram: u64,
    pub freeram: u64,
    pub sharedram: u64,
    pub bufferram: u64,
    pub totalswap: u64,
    pub freeswap: u64,
    pub procs: u16,
    pub totalhigh: u64,
    pub freehigh: u64,
    pub mem_unit: u32,
}

/// Flags of `getrandom`.
#[derive(Debug, Clone, Copy, PartialEq, Eq, Structural)]
pub struct GrndFlags(pub u32);

impl GrndFlags {
    pub const GRND_NONBLOCK: u32 = 1;
    pub const GRND_RANDOM: u32 = 2;

    /// Tests whether every bit of `flag` is set.
    pub fn contains(self, flag: u32) -> (r: bool)
        ensures
            r == (self.0 & flag == flag),
    {
        self.0 & flag == flag
    }
}

/// The level of a kernel log message.
#[derive(Debug, Clone, Copy, PartialEq, Eq, Structural)]
pub struct LogLevel(pub u32);

impl LogLevel {
    pub const KERN_EMERG: u32 = 0;
    pub const KERN_ALERT: u32 = 1;
    pub const KERN_CRIT: u32 = 2;
    pub const KERN_ERR: u32 = 3;
    pub const KERN_WARNING: u32 = 4;
    pub const KERN_NOTICE: u32 = 5;
    pub const KERN_INFO: u32 = 6;
    pub const KERN_DEBUG: u32 = 7;
}

/// The level of a Rust log record, from the most to the least severe.
#[derive(Debug, Clone, Copy, PartialEq, Eq, Structural)]
pub enum RustLogLevel {
    Error,
    Warn,
    Info,
    Debug,
    Trace,
}

/// The kernel log level that a Rust log record is written at: each level one step less severe
/// than its name, so that `Error` is `KERN_ERR` and `Trace` is `KERN_DEBUG`.
pub open spec fn kernel_level(level: RustLogLevel) -> u32 {
    match level {
        RustLogLevel::Trace => LogLevel::KERN_DEBUG,
        RustLogLevel::Debug => LogLevel::KERN_INFO,
        RustLogLevel::Info => LogLevel::KERN_NOTICE,
        RustLogLevel::Warn => LogLevel::KERN_WARNING,
        RustLogLevel::Error => LogLevel::KERN_ERR,
    }
}

/// Converts the level of a Rust log record to a kernel log level.
pub fn log_level(level: RustLogLevel) -> (r: LogLevel)
    ensures
        r.0 == kernel_level(level),
{
    match level {
        RustLogLevel::Trace => LogLevel(LogLevel::KERN_DEBUG),
        RustLogLevel::Debug => LogLevel(LogLevel::KERN_INFO),
        RustLogLevel::Info => LogLevel(LogLevel::KERN_NOTICE),
        RustLogLevel::Warn => LogLevel(LogLevel::KERN_WARNING),
        RustLogLevel::Error => LogLevel(LogLevel::KERN_ERR),
    }
}

} // verus!
