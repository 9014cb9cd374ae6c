//! Mapping process ids between the Darwin host and the Linux program.

use vstd::prelude::*;

use crate::error::LxError;

verus! {

/// Maps process ids between the two platforms.
pub trait PidMapper {
    /// The Linux id of a Darwin process id.
    fn apple_to_linux(&self, apple: i32) -> Result<i32, LxError>;

    /// The Darwin id of a Linux process id.
    fn linux_to_apple(&self, linux: i32) -> Result<i32, LxError>;
}

/// The mapping that keeps every id as it is.
#[derive(Debug, Clone, Copy)]
pub struct IdentityMapper;

impl PidMapper for IdentityMapper {
    fn apple_to_linux(&self, apple: i32) -> (r: Result<i32, LxError>)
        ensures
            r == Ok::<i32, LxError>(apple),
    {
        Ok(apple)
    }

    fn linux_to_apple(&self, linux: i32) -> (r: Result<i32, LxError>)
        ensures
            r == Ok::<i32, LxError>(linux),
    {
        Ok(linux)
    }
}

} // verus!
