//! The messages of the authentication handshake between a client and a
//! peer server: the peer answers the client's challenge with the data it
//! decrypted and a challenge of its own, and the client answers that one.

use vstd::prelude::*;

verus! {

/// the peer's answer to a client's challenge
#[derive(Debug)]
pub struct AuthnChallenge {
    /// the data the peer decrypted, as bytes
    pub result: Vec<u8>,
    /// encrypted data set by the peer for the client to decrypt and send
    /// back, with the nonce at the start of the bytes
    pub challenge: Vec<u8>,
    /// the token of the api session to use for the following requests, as
    /// its text
    pub token: String,
}

/// the client's answer to the peer's challenge
#[derive(Debug)]
pub struct AuthnResponse {
    /// the data the client decrypted, as bytes
    pub result: Vec<u8>,
}

} // verus!
