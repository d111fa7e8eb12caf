//! Administration of remote servers: their records and request bodies.

use vstd::prelude::*;
use crate::db::U16toI32;
use crate::db::ids::RemoteServerId;

verus! {

/// a remote server as listed
#[derive(Debug)]
pub struct PartialRemoteServer {
    pub id: RemoteServerId,
    pub addr: String,
    pub port: u16,
    pub secure: bool,
}

/// the remote server named in the path
#[derive(Debug, Clone, Copy, PartialEq, Eq, Structural)]
pub struct RemoteServerPath {
    pub server_id: RemoteServerId,
}

/// the form of a remote server
#[derive(Debug)]
pub struct RemoteServerForm {
    pub addr: String,
    pub port: u16,
    pub secure: bool,
}

/// the body of a new remote server
#[derive(Debug)]
pub struct NewRemoteServer {
    pub addr: String,
    pub port: u16,
    pub secure: bool,
}

/// the body of a change to a remote server
#[derive(Debug)]
pub struct UpdateRemoteServer {
    pub addr: String,
    pub port: u16,
    pub secure: bool,
}

impl NewRemoteServer {
    /// the port as the database stores it
    pub fn port_param(&self) -> (rtn: U16toI32<'_>)
        ensures
            *rtn.0 == self.port,
    {
        U16toI32(&self.port)
    }
}

impl UpdateRemoteServer {
    /// the port as the database stores it
    pub fn port_param(&self) -> (rtn: U16toI32<'_>)
        ensures
            *rtn.0 == self.port,
    {
        U16toI32(&self.port)
    }
}

} // verus!
