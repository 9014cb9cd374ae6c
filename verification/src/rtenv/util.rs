//! Small helpers of the runtime.

use vstd::prelude::*;

use crate::error::LxError;
use crate::mapper::PidMapper;

verus! {

/// Makes a NUL-terminated C string of a path.
pub fn c_path(dat: Vec<u8>) -> (r: Vec<u8>)
    ensures
        r@ == dat@.push(0),
{
    let mut dat = dat;
    dat.push(0);
    dat
}

/// The mapping of process ids that the runtime installs: ids are the same on both sides.
#[derive(Debug, Clone, Copy)]
pub struct RtenvPidMapper;

impl PidMapper for RtenvPidMapper {
    fn apple_to_linux(&self, apple: i32) -> (r: Result<i32, LxError>)
        ensures
            r == Ok::<i32, LxError>(apple),
    {
        Ok(apple)
    }

    fn linux_to_apple(&self, linux: i32) -> (r: Result<i32, LxError>)
        ensures
            r == Ok::<i32, LxError>(linux),
    {
        Ok(linux)
    }
}

} // verus!
