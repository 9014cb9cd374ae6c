//! Linux-side structures, conversions and decision logic of a compatibility layer that runs Linux
//! programs on macOS.
//!
//! Every conversion between the Linux and the Darwin encoding of a value goes through
//! [`FromApple`] and [`ToApple`].

use vstd::prelude::*;

pub mod bytes;
pub mod error;
pub mod flags;
pub mod fs;
pub mod text;
pub mod time;
pub mod files;
pub mod signal;
pub mod loader;
pub mod misc;
pub mod terminal;
pub mod io;
pub mod ipc;
pub mod sync;
pub mod process;
pub mod net;
pub mod mm;
pub mod ucontext;
pub mod rtenv;
pub mod mapper;
pub mod syscall;

use error::LxError;

verus! {

/// Converts a value from the Apple platform to the Linux platform.
pub trait FromApple: Sized {
    /// The type of the Apple platform representation.
    type Apple;

    /// Converts a value from the Apple platform to the Linux platform.
    fn from_apple(apple: Self::Apple) -> Result<Self, LxError>;
}

/// Converts a value from the Linux platform to the Apple platform.
pub trait ToApple: Sized {
    /// The type of the Apple platform representation.
    type Apple;

    /// Converts a value from the Linux platform to the Apple platform.
    fn to_apple(self) -> Result<Self::Apple, LxError>;
}

} // verus!
