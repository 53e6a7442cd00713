//! The legacy framed-TCP package: a command byte, flags, a correlation id,
//! optional credentials and a payload. Kept for the older transport; the
//! streaming core does not use it.
use vstd::prelude::*;

use crate::ids::new_v4;
use crate::types::{Credentials, Uuid};

verus! {

/// Size of the fixed part of a package: command, flags and correlation id.
pub const PKG_MANDATORY_SIZE: usize = 18;

/// Command byte of a heartbeat request.
pub const CMD_HEARTBEAT_REQUEST: u8 = 0x01;

/// Command byte of an authentication request.
pub const CMD_AUTHENTICATE: u8 = 0xF2;

/// A package of the legacy framed transport.
#[derive(Debug)]
pub struct Pkg {
    pub cmd: u8,
    pub creds_opt: Option<Credentials>,
    pub correlation: Uuid,
    pub payload: Vec<u8>,
}

/// The framed size of a package: the fixed part, the payload, and the
/// credentials with one length byte each.
pub open spec fn pkg_size(p: Pkg) -> int {
    PKG_MANDATORY_SIZE + p.payload@.len() + match p.creds_opt {
        Some(c) => c.login@.len() + c.password@.len() + 2,
        None => 0,
    }
}

impl Pkg {
    /// A package without credentials and with an empty payload.
    pub fn new(cmd: u8, correlation: Uuid) -> (r: Pkg)
        ensures
            r.cmd == cmd,
            r.creds_opt is None,
            r.correlation == correlation,
            r.payload@.len() == 0,
    {
        Pkg { cmd, creds_opt: None, correlation, payload: Vec::new() }
    }

    pub fn set_payload(&mut self, payload: Vec<u8>)
        ensures
            final(self).payload == payload,
            final(self).cmd == old(self).cmd,
            final(self).creds_opt == old(self).creds_opt,
            final(self).correlation == old(self).correlation,
    {
        self.payload = payload;
    }

    pub fn set_credentials(&mut self, creds: Credentials)
        ensures
            final(self).creds_opt == Some(creds),
            final(self).cmd == old(self).cmd,
            final(self).correlation == old(self).correlation,
            final(self).payload == old(self).payload,
    {
        self.creds_opt = Some(creds);
    }

    /// The framed size of the package.
    pub fn size(&self) -> (r: usize)
        requires
            pkg_size(*self) <= usize::MAX,
        ensures
            r == pkg_size(*self),
    {
        let creds_size: usize = match &self.creds_opt {
            Some(creds) => creds.login.len() + creds.password.len() + 2,
            None => 0,
        };
        PKG_MANDATORY_SIZE + self.payload.len() + creds_size
    }

    /// A heartbeat request under a fresh correlation id.
    pub fn heartbeat_request() -> (r: Pkg)
        ensures
            r.cmd == CMD_HEARTBEAT_REQUEST,
            r.creds_opt is None,
            r.payload@.len() == 0,
    {
        Pkg::new(CMD_HEARTBEAT_REQUEST, new_v4())
    }

    /// An authentication request carrying `creds`, under a fresh
    /// correlation id.
    pub fn authenticate(creds: Credentials) -> (r: Pkg)
        ensures
            r.cmd == CMD_AUTHENTICATE,
            r.creds_opt == Some(creds),
            r.payload@.len() == 0,
    {
        let mut pkg = Pkg::new(CMD_AUTHENTICATE, new_v4());
        pkg.set_credentials(creds);
        pkg
    }

    /// The package's command and correlation id, without credentials or
    /// payload.
    pub fn copy_headers_only(&self) -> (r: Pkg)
        ensures
            r.cmd == self.cmd,
            r.correlation == self.correlation,
            r.creds_opt is None,
            r.payload@.len() == 0,
    {
        Pkg { cmd: self.cmd, correlation: self.correlation, payload: Vec::new(), creds_opt: None }
    }
}

} // verus!
