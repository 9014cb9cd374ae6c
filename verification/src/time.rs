//! Clocks and time values.

use crate::error::LxError;
use crate::{FromApple, ToApple};
use core::time::Duration;
use vstd::prelude::*;

verus! {

/// A clock.
#[derive(Debug, Clone, Copy, PartialEq, Eq, Structural, Default)]
pub struct ClockId(pub u32);

impl ClockId {
    pub const CLOCK_REALTIME: u32 = 0;
    pub const CLOCK_MONOTONIC: u32 = 1;
    pub const CLOCK_PROCESS_CPUTIME_ID: u32 = 2;
    pub const CLOCK_THREAD_CPUTIME_ID: u32 = 3;

    /// The Darwin value that the Linux value `linux` stands for, if Darwin has one.
    pub open spec fn apple_of(linux: u32) -> Option<u32> {
        match linux {
            0 => Some(0u32),
            1 => Some(6u32),
            2 => Some(12u32),
            3 => Some(16u32),
            _ => None,
        }
    }

    /// The Linux value that the Darwin value `apple` is read as, if any.
    pub open spec fn linux_of(apple: u32) -> Option<u32> {
        match apple {
            0 => Some(0u32),
            6 => Some(1u32),
            12 => Some(2u32),
            16 => Some(3u32),
            _ => None,
        }
    }

}

impl FromApple for ClockId {
    type Apple = u32;

    fn from_apple(apple: u32) -> (r: Result<Self, LxError>)
        ensures
            r == (match Self::linux_of(apple) {
                Some(x) => Ok(ClockId(x)),
                None => Err(LxError(LxError::EINVAL)),
            }),
    {
        match apple {
            0 => Ok(ClockId(Self::CLOCK_REALTIME)),
            6 => Ok(ClockId(Self::CLOCK_MONOTONIC)),
            12 => Ok(ClockId(Self::CLOCK_PROCESS_CPUTIME_ID)),
            16 => Ok(ClockId(Self::CLOCK_THREAD_CPUTIME_ID)),
            _ => Err(LxError(LxError::EINVAL)),
        }
    }
}

impl ToApple for ClockId {
    type Apple = u32;

    fn to_apple(self) -> (r: Result<u32, LxError>)
        ensures
            r == (match Self::apple_of(self.0) {
                Some(a) => Ok(a),
                None => Err(LxError(LxError::EINVAL)),
            }),
    {
        match self.0 {
            0 => Ok(0),
            1 => Ok(6),
            2 => Ok(12),
            3 => Ok(16),
            _ => Err(LxError(LxError::EINVAL)),
        }
    }
}

/// A time as seconds and nanoseconds.
#[derive(Debug, Clone, Copy, PartialEq, Eq, Structural)]
pub struct Timespec {
    pub tv_sec: i64,
    pub tv_nsec: i64,
}

/// What `Duration::new` makes of whole seconds and extra nanoseconds.
pub uninterp spec fn duration_new(secs: u64, nanos: u32) -> Duration;

/// Calls `std::time::Duration::new`, which carries whole seconds out of `nanos` and panics
/// where that carry overflows the seconds; its result is only named here.
#[verifier::external_body]
fn std_duration_new(secs: u64, nanos: u32) -> (d: Duration)
    requires
        secs as int + nanos as int / 1_000_000_000 <= u64::MAX,
    ensures
        d == duration_new(secs, nanos),
{
    Duration::new(secs, nanos)
}

impl Timespec {
    /// The time that Darwin seconds and nanoseconds give.
    pub fn from_apple(tv_sec: i64, tv_nsec: i64) -> (r: Self)
        ensures
            r == (Timespec { tv_sec, tv_nsec }),
    {
        Timespec { tv_sec, tv_nsec }
    }

    /// The Darwin seconds and nanoseconds of the time.
    pub fn to_apple(self) -> (r: (i64, i64))
        ensures
            r == (self.tv_sec, self.tv_nsec),
    {
        (self.tv_sec, self.tv_nsec)
    }

    /// The duration of the time: the seconds taken as unsigned, the nanoseconds cut to 32 bits.
    pub fn to_duration(self) -> (r: Duration)
        requires
            (self.tv_sec as u64) as int + (self.tv_nsec as u32) as int / 1_000_000_000 <= u64::MAX,
        ensures
            r == duration_new(self.tv_sec as u64, self.tv_nsec as u32),
    {
        std_duration_new(self.tv_sec as u64, self.tv_nsec as u32)
    }
}

/// A time as seconds and microseconds.
#[derive(Debug, Clone, Copy, PartialEq, Eq, Structural)]
pub struct Timeval {
    pub tv_sec: i64,
    pub tv_usec: i64,
}

impl Timeval {
    /// The time that Darwin seconds and microseconds give.
    pub fn from_apple(tv_sec: i64, tv_usec: i32) -> (r: Self)
        ensures
            r == (Timeval { tv_sec, tv_usec: tv_usec as i64 }),
    {
        Timeval { tv_sec, tv_usec: tv_usec as i64 }
    }

    /// The same time in seconds and nanoseconds.
    pub fn to_timespec(self) -> (r: Timespec)
        requires
            i64::MIN <= self.tv_usec * 1000 <= i64::MAX,
        ensures
            r == (Timespec { tv_sec: self.tv_sec, tv_nsec: (self.tv_usec * 1000) as i64 }),
    {
        Timespec { tv_sec: self.tv_sec, tv_nsec: self.tv_usec * 1000 }
    }
}

/// A time zone.
#[derive(Debug, Clone, Copy, PartialEq, Eq, Structural)]
pub struct Timezone {
    pub tz_minuteswest: i32,
    pub tz_dsttime: i32,
}

/// Darwin `CLOCK_REALTIME`.
pub const APPLE_CLOCK_REALTIME: u32 = 0;
/// Darwin `CLOCK_MONOTONIC`.
pub const APPLE_CLOCK_MONOTONIC: u32 = 6;
/// Darwin `CLOCK_PROCESS_CPUTIME_ID`.
pub const APPLE_CLOCK_PROCESS_CPUTIME_ID: u32 = 12;
/// Darwin `CLOCK_THREAD_CPUTIME_ID`.
pub const APPLE_CLOCK_THREAD_CPUTIME_ID: u32 = 16;

/// Each clock stands for the Darwin clock of the same name.
pub proof fn lemma_clock_id_by_name()
    ensures
        ClockId::apple_of(ClockId::CLOCK_REALTIME) == Some(APPLE_CLOCK_REALTIME),
        ClockId::linux_of(APPLE_CLOCK_REALTIME) == Some(ClockId::CLOCK_REALTIME),
        ClockId::apple_of(ClockId::CLOCK_MONOTONIC) == Some(APPLE_CLOCK_MONOTONIC),
        ClockId::linux_of(APPLE_CLOCK_MONOTONIC) == Some(ClockId::CLOCK_MONOTONIC),
        ClockId::apple_of(ClockId::CLOCK_PROCESS_CPUTIME_ID) == Some(APPLE_CLOCK_PROCESS_CPUTIME_ID),
        ClockId::linux_of(APPLE_CLOCK_PROCESS_CPUTIME_ID) == Some(ClockId::CLOCK_PROCESS_CPUTIME_ID),
        ClockId::apple_of(ClockId::CLOCK_THREAD_CPUTIME_ID) == Some(APPLE_CLOCK_THREAD_CPUTIME_ID),
        ClockId::linux_of(APPLE_CLOCK_THREAD_CPUTIME_ID) == Some(ClockId::CLOCK_THREAD_CPUTIME_ID),
{
}

} // verus!
