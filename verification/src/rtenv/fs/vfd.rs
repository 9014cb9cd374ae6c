//! The file system requests about virtual descriptors.

use vstd::prelude::*;

use crate::ipc::Request;

verus! {

/// The request for the next directory entry of a virtual directory.
pub fn getdents64(vfd: u64) -> (r: Request)
    ensures
        r matches Request::VirtualFdGetDents64(v) && v == vfd,
{
    Request::VirtualFdGetDents64(vfd)
}

/// The request for the status of a virtual descriptor.
pub fn stat(vfd: u64) -> (r: Request)
    ensures
        r matches Request::VirtualFdStat(v) && v == vfd,
{
    Request::VirtualFdStat(vfd)
}

/// The request that changes the owner of a virtual descriptor.
pub fn chown(vfd: u64, uid: u32, gid: u32) -> (r: Request)
    ensures
        r matches Request::VirtualFdChown(v, u, g) && v == vfd && u == uid && g == gid,
{
    Request::VirtualFdChown(vfd, uid, gid)
}

/// The request for the target of a virtual symbolic link.
pub fn readlink(vfd: u64) -> (r: Request)
    ensures
        r matches Request::VirtualFdReadlink(v) && v == vfd,
{
    Request::VirtualFdReadlink(vfd)
}

/// The request for the path that a virtual descriptor was opened with.
pub fn orig_path(vfd: u64) -> (r: Request)
    ensures
        r matches Request::VirtualFdOrigPath(v) && v == vfd,
{
    Request::VirtualFdOrigPath(vfd)
}

} // verus!
