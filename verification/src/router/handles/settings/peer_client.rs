//! The clients and peers of a user: the request bodies, and what a
//! violated constraint of the database means for them.

use vstd::prelude::*;
use crate::db::{ErrorKind, U16toI32};
use crate::db::ids::{UserClientId, UserPeerId};
use crate::text::str_eq;

verus! {

/// why a client or peer could not be added
#[derive(Debug, Clone, Copy, PartialEq, Eq, Structural)]
pub enum NewClientError {
    InvalidPublicKey,
    NameAlreadyExists,
}

impl NewClientError {
    /// the http status of the error: 400
    pub fn status(&self) -> (rtn: u16)
        ensures
            rtn == 400,
    {
        400
    }
}

/// a client or peer to add
#[derive(Debug)]
pub enum NewRecord {
    Client(NewClient),
    Peer(NewPeer),
}

/// a client to add: its name and base64 public key
#[derive(Debug)]
pub struct NewClient {
    pub name: String,
    pub public_key: String,
}

/// a peer server to add: its name, base64 public key and address
#[derive(Debug)]
pub struct NewPeer {
    pub name: String,
    pub public_key: String,
    pub addr: String,
    pub port: u16,
    pub secure: bool,
    pub ssc: bool,
}

impl NewPeer {
    /// the port as the database stores it
    pub fn port_param(&self) -> (rtn: U16toI32<'_>)
        ensures
            *rtn.0 == self.port,
    {
        U16toI32(&self.port)
    }
}

/// the unique constraints of the table of clients, or of peers
pub open spec fn known_unique(constraint: Seq<char>, peer: bool) -> bool {
    if peer {
        constraint == "user_peers_public_key_key"@ || constraint == "user_peers_users_id_name_key"@
    } else {
        constraint == "user_clients_public_key_key"@ || constraint == "user_clients_users_id_name_key"@
    }
}

/// what a violated constraint of the database means for a new client (or,
/// with `peer`, a new peer): a taken public key or name, or `None` for a
/// foreign key, which is the database's own error; the table has no other
/// unique constraint
pub fn from_violation(kind: &ErrorKind, peer: bool) -> (rtn: Option<NewClientError>)
    requires
        kind matches ErrorKind::Unique(c) ==> known_unique(c@, peer),
    ensures
        match *kind {
            ErrorKind::Unique(c) => rtn == Some(
                if (peer && c@ == "user_peers_public_key_key"@) || (!peer && c@ == "user_clients_public_key_key"@) {
                    NewClientError::InvalidPublicKey
                } else {
                    NewClientError::NameAlreadyExists
                },
            ),
            ErrorKind::ForeignKey(_) => rtn is None,
        },
{
    match kind {
        ErrorKind::Unique(c) => {
            let key = if peer {
                str_eq(c, "user_peers_public_key_key")
            } else {
                str_eq(c, "user_clients_public_key_key")
            };
            if key {
                Some(NewClientError::InvalidPublicKey)
            } else {
                Some(NewClientError::NameAlreadyExists)
            }
        },
        ErrorKind::ForeignKey(_) => None,
    }
}

/// why a client or peer could not be deleted
#[derive(Debug, Clone, Copy, PartialEq, Eq, Structural)]
pub enum DeleteRecordError {
    IdNotFound,
}

impl DeleteRecordError {
    /// the http status of the error: 404
    pub fn status(&self) -> (rtn: u16)
        ensures
            rtn == 404,
    {
        404
    }
}

/// a client or peer to delete
#[derive(Debug, Clone, Copy, PartialEq, Eq, Structural)]
pub enum DeleteRecord {
    Client { id: UserClientId },
    Peer { id: UserPeerId },
}

} // verus!
