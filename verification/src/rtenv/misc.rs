//! Host names, the system log and system information, as requests to the server.

use vstd::prelude::*;

use crate::error::LxError;
use crate::ipc::{NetworkNames, Request, Response};
use crate::misc::{kernel_level, log_level, LogLevel, RustLogLevel};
use vstd::string::StringSliceAdditionalSpecFns;

verus! {

/// The request for system information.
pub fn sysinfo() -> (r: Request)
    ensures
        r is SysInfo,
{
    Request::SysInfo
}

/// The request for the node and domain names.
pub fn get_network_names() -> (r: Request)
    ensures
        r is GetNetworkNames,
{
    Request::GetNetworkNames
}

/// The node and domain names that the request got, or its error.
pub fn reply_network_names(resp: Response) -> (r: Result<(Vec<u8>, Vec<u8>), LxError>)
    requires
        crate::rtenv::is_network_names_reply(resp),
    ensures
        match resp {
            Response::NetworkNames(n) => r matches Ok((a, b)) && a@ == n.nodename@ && b@
                == n.domainname@,
            Response::Error(e) => r == Err::<(Vec<u8>, Vec<u8>), LxError>(e),
            _ => false,
        },
{
    match resp {
        Response::NetworkNames(n) => Ok((n.nodename, n.domainname)),
        Response::Error(e) => Err(e),
        _ => Err(LxError(LxError::EIO)),
    }
}

/// The request that sets the node and domain names.
pub fn set_network_names(nodename: Vec<u8>, domainname: Vec<u8>) -> (r: Request)
    ensures
        r matches Request::SetNetworkNames(n) && n.nodename@ == nodename@ && n.domainname@
            == domainname@,
{
    Request::SetNetworkNames(NetworkNames { nodename, domainname })
}

/// The request that writes `content` to the system log at `level`.
pub fn write_syslog(level: LogLevel, content: Vec<u8>) -> (r: Request)
    ensures
        r matches Request::WriteSyslog(l, c) && l == level && c@ == content@,
{
    Request::WriteSyslog(level, content)
}

/// The text of a log record: where it comes from (`mactux` where that is unknown), a colon
/// and a space, and the message.
pub open spec fn log_content(origin: Option<Seq<u8>>, message: Seq<u8>) -> Seq<u8> {
    let m = match origin {
        Some(p) => p,
        None => seq![0x6du8, 0x61, 0x63, 0x74, 0x75, 0x78],
    };
    m + seq![0x3au8, 0x20u8] + message
}

fn append_bytes(out: &mut Vec<u8>, b: &[u8])
    ensures
        final(out)@ == old(out)@ + b@,
{
    let ghost start = out@;
    let mut i: usize = 0;
    while i < b.len()
        invariant
            i <= b@.len(),
            out@ == start + b@.take(i as int),
        decreases b@.len() - i,
    {
        out.push(b[i]);
        i = i + 1;
        assert(out@ =~= start + b@.take(i as int));
    }
    assert(b@.take(b@.len() as int) =~= b@);
}

/// Writes the log records of Rust code to the system log.
#[derive(Debug, Clone, Copy)]
pub struct RustLogger;

impl RustLogger {
    /// The request that logs a record of `level` from `origin` with the formatted
    /// message `args`.
    pub fn log(&self, level: RustLogLevel, origin: Option<&str>, args: &str) -> (r: Request)
        ensures
            r matches Request::WriteSyslog(l, c) && l.0 == kernel_level(level) && c@ == log_content(
                match origin {
                    Some(p) => Some(p.spec_bytes()),
                    None => None,
                },
                args.spec_bytes(),
            ),
    {
        let mut content: Vec<u8> = Vec::new();
        match origin {
            Some(p) => append_bytes(&mut content, p.as_bytes()),
            None => {
                let m = [0x6du8, 0x61, 0x63, 0x74, 0x75, 0x78];
                append_bytes(&mut content, &m);
            },
        }
        content.push(0x3a);
        content.push(0x20);
        append_bytes(&mut content, args.as_bytes());
        proof {
            let m = match origin {
                Some(p) => p.spec_bytes(),
                None => seq![0x6du8, 0x61, 0x63, 0x74, 0x75, 0x78],
            };
            assert(content@ =~= m + seq![0x3au8, 0x20u8] + args.spec_bytes());
        }
        write_syslog(log_level(level), content)
    }
}

} // verus!
