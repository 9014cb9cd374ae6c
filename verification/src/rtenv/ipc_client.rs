//! What the client of the server keeps: where the server listens, and the descriptor flags of
//! its connection.

use vstd::prelude::*;

use crate::rtenv::vfd::APPLE_FD_CLOEXEC;

verus! {

/// Where the server of the process listens, once it is known.
#[derive(Debug, Clone)]
pub struct ClientConfig {
    pub server_sock_path: Option<Vec<u8>>,
}

impl ClientConfig {
    /// No server path known yet.
    pub fn new() -> (r: Self)
        ensures
            r.server_sock_path is None,
    {
        ClientConfig { server_sock_path: None }
    }

    /// Whether the path of the server socket is set.
    pub fn is_set(&self) -> (r: bool)
        ensures
            r == self.server_sock_path is Some,
    {
        self.server_sock_path.is_some()
    }

    /// Sets the path of the server socket to connect to. The path is set once per process:
    /// setting it again is a fault of the caller.
    pub fn set_server_sock_path(&mut self, val: Vec<u8>)
        requires
            old(self).server_sock_path is None,
        ensures
            final(self).server_sock_path matches Some(p) && p@ == val@,
    {
        self.server_sock_path = Some(val);
    }
}

/// The descriptor flags of the connection to the server with close-on-exec switched on
/// (`enable`) or off, the other flags kept.
pub fn cloexec_flags(original: i32, enable: bool) -> (r: i32)
    ensures
        r & !APPLE_FD_CLOEXEC == original & !APPLE_FD_CLOEXEC,
        (r & APPLE_FD_CLOEXEC != 0) == enable,
{
    if enable {
        let r = original | APPLE_FD_CLOEXEC;
        assert(r & !1i32 == original & !1i32 && r & 1i32 != 0) by (bit_vector)
            requires
                r == original | 1i32,
        ;
        r
    } else {
        let r = original & !APPLE_FD_CLOEXEC;
        assert(r & !1i32 == original & !1i32 && r & 1i32 == 0) by (bit_vector)
            requires
                r == original & !1i32,
        ;
        r
    }
}

} // verus!
