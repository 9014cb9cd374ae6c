//! The decisions of the runtime that a Linux program runs in: which requests it sends to the
//! server, what it makes of the answers, and the state it keeps for the process and its threads.
//! The caller performs the system calls and the exchanges with the server.

use vstd::prelude::*;

use crate::error::LxError;
use crate::fs::{Dirent64, Statx};
use crate::ipc::{NetworkNames, Response, VfdAvailCtrl};
use crate::misc::SysInfo;

pub mod emuctx;
pub mod error_report;
pub mod fs;
pub mod io;
pub mod ipc_client;
pub mod misc;
pub mod mm;
pub mod net;
pub mod thread;
pub mod util;
pub mod vfd;

verus! {

/// Whether `resp` answers a request that gets nothing back or an error.
pub open spec fn is_nothing_reply(resp: Response) -> bool {
    resp is Nothing || resp is Error
}

/// The outcome of a request answered by nothing or an error.
pub fn reply_nothing(resp: Response) -> (r: Result<(), LxError>)
    requires
        is_nothing_reply(resp),
    ensures
        match resp {
            Response::Error(e) => r == Err::<(), LxError>(e),
            _ => r is Ok,
        },
{
    match resp {
        Response::Error(e) => Err(e),
        _ => Ok(()),
    }
}

/// Whether `resp` answers a request that gets a path of the Linux name space back.
pub open spec fn is_path_reply(resp: Response) -> bool {
    resp is LxPath || resp is Error
}

/// The path that a request got, or its error.
pub fn reply_path(resp: Response) -> (r: Result<Vec<u8>, LxError>)
    requires
        is_path_reply(resp),
    ensures
        match resp {
            Response::LxPath(p) => r matches Ok(v) && v@ == p@,
            Response::Error(e) => r == Err::<Vec<u8>, LxError>(e),
            _ => false,
        },
{
    match resp {
        Response::LxPath(p) => Ok(p),
        Response::Error(e) => Err(e),
        _ => Err(LxError(LxError::EIO)),
    }
}

/// Whether `resp` answers a request that gets a path on the host back.
pub open spec fn is_native_path_reply(resp: Response) -> bool {
    resp is NativePath || resp is Error
}

/// The host path that a request got, or its error.
pub fn reply_native_path(resp: Response) -> (r: Result<Vec<u8>, LxError>)
    requires
        is_native_path_reply(resp),
    ensures
        match resp {
            Response::NativePath(p) => r matches Ok(v) && v@ == p@,
            Response::Error(e) => r == Err::<Vec<u8>, LxError>(e),
            _ => false,
        },
{
    match resp {
        Response::NativePath(p) => Ok(p),
        Response::Error(e) => Err(e),
        _ => Err(LxError(LxError::EIO)),
    }
}

/// Whether `resp` answers a request that gets a virtual descriptor back.
pub open spec fn is_vfd_reply(resp: Response) -> bool {
    resp is Vfd || resp is Error
}

/// The virtual descriptor that a request got, or its error.
pub fn reply_vfd(resp: Response) -> (r: Result<u64, LxError>)
    requires
        is_vfd_reply(resp),
    ensures
        match resp {
            Response::Vfd(v) => r == Ok::<u64, LxError>(v),
            Response::Error(e) => r == Err::<u64, LxError>(e),
            _ => false,
        },
{
    match resp {
        Response::Vfd(v) => Ok(v),
        Response::Error(e) => Err(e),
        _ => Err(LxError(LxError::EIO)),
    }
}

/// Whether `resp` answers a request that gets bytes back.
pub open spec fn is_bytes_reply(resp: Response) -> bool {
    resp is Bytes || resp is Error
}

/// Whether `resp` answers a request that gets a length back.
pub open spec fn is_length_reply(resp: Response) -> bool {
    resp is Length || resp is Error
}

/// The length that a request got, or its error.
pub fn reply_length(resp: Response) -> (r: Result<usize, LxError>)
    requires
        is_length_reply(resp),
    ensures
        match resp {
            Response::Length(n) => r == Ok::<usize, LxError>(n),
            Response::Error(e) => r == Err::<usize, LxError>(e),
            _ => false,
        },
{
    match resp {
        Response::Length(n) => Ok(n),
        Response::Error(e) => Err(e),
        _ => Err(LxError(LxError::EIO)),
    }
}

/// Whether `resp` answers a request that gets an offset back.
pub open spec fn is_offset_reply(resp: Response) -> bool {
    resp is Offset || resp is Error
}

/// The offset that a request got, as unsigned, or its error.
pub fn reply_offset(resp: Response) -> (r: Result<u64, LxError>)
    requires
        is_offset_reply(resp),
    ensures
        match resp {
            Response::Offset(n) => r == Ok::<u64, LxError>(n as u64),
            Response::Error(e) => r == Err::<u64, LxError>(e),
            _ => false,
        },
{
    match resp {
        Response::Offset(n) => Ok(n as u64),
        Response::Error(e) => Err(e),
        _ => Err(LxError(LxError::EIO)),
    }
}

/// Whether `resp` answers a status request.
pub open spec fn is_stat_reply(resp: Response) -> bool {
    resp is Stat || resp is Error
}

/// The status that a request got, or its error.
pub fn reply_stat(resp: Response) -> (r: Result<Statx, LxError>)
    requires
        is_stat_reply(resp),
    ensures
        match resp {
            Response::Stat(s) => r == Ok::<Statx, LxError>(s),
            Response::Error(e) => r == Err::<Statx, LxError>(e),
            _ => false,
        },
{
    match resp {
        Response::Stat(s) => Ok(s),
        Response::Error(e) => Err(e),
        _ => Err(LxError(LxError::EIO)),
    }
}

/// Whether `resp` answers a request for the next directory entry.
pub open spec fn is_dirent_reply(resp: Response) -> bool {
    resp is Nothing || resp is Dirent64 || resp is Error
}

/// The next directory entry, `None` at the end, or the error.
pub fn reply_dirent(resp: Response) -> (r: Result<Option<Dirent64>, LxError>)
    requires
        is_dirent_reply(resp),
    ensures
        match resp {
            Response::Nothing => r matches Ok(None),
            Response::Dirent64(d) => r matches Ok(Some(x)) && x.hdr == d.hdr && x.name@ == d.name@,
            Response::Error(e) => r == Err::<Option<Dirent64>, LxError>(e),
            _ => false,
        },
{
    match resp {
        Response::Nothing => Ok(None),
        Response::Dirent64(d) => Ok(Some(d)),
        Response::Error(e) => Err(e),
        _ => Err(LxError(LxError::EIO)),
    }
}

/// Whether `resp` answers a request for the network names.
pub open spec fn is_network_names_reply(resp: Response) -> bool {
    resp is NetworkNames || resp is Error
}

/// Whether `resp` answers a request for system information.
pub open spec fn is_sysinfo_reply(resp: Response) -> bool {
    resp is SysInfo || resp is Error
}

/// The system information that a request got, or its error.
pub fn reply_sysinfo(resp: Response) -> (r: Result<SysInfo, LxError>)
    requires
        is_sysinfo_reply(resp),
    ensures
        match resp {
            Response::SysInfo(s) => r == Ok::<SysInfo, LxError>(s),
            Response::Error(e) => r == Err::<SysInfo, LxError>(e),
            _ => false,
        },
{
    match resp {
        Response::SysInfo(s) => Ok(s),
        Response::Error(e) => Err(e),
        _ => Err(LxError(LxError::EIO)),
    }
}

/// Whether `resp` answers a query of what a control operation reads and writes.
pub open spec fn is_avail_ctrl_reply(resp: Response) -> bool {
    resp is VfdAvailCtrl || resp is Error
}

/// What a control operation reads and writes, or the error of the query.
pub fn reply_avail_ctrl(resp: Response) -> (r: Result<VfdAvailCtrl, LxError>)
    requires
        is_avail_ctrl_reply(resp),
    ensures
        match resp {
            Response::VfdAvailCtrl(a) => r == Ok::<VfdAvailCtrl, LxError>(a),
            Response::Error(e) => r == Err::<VfdAvailCtrl, LxError>(e),
            _ => false,
        },
{
    match resp {
        Response::VfdAvailCtrl(a) => Ok(a),
        Response::Error(e) => Err(e),
        _ => Err(LxError(LxError::EIO)),
    }
}

} // verus!
