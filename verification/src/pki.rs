//! The private key of a user or of the server: when it was made and its
//! secret bytes, and the binary form it is stored in.

use vstd::prelude::*;
use crate::time::{utc_now, Timestamp, MAX_TIMESTAMP_SECS, MIN_TIMESTAMP_SECS};

verus! {

/// the number of secret bytes of a key
pub const KEY_SIZE: usize = 32;

/// a binary form that failed to decode, carried through the library unread
#[verifier::external_type_specification]
#[verifier::external_body]
pub struct ExDecodeError(bincode::error::DecodeError);

/// a key that failed to encode, carried through the library unread
#[verifier::external_type_specification]
#[verifier::external_body]
pub struct ExEncodeError(bincode::error::EncodeError);

/// the random source that failed, carried through the library unread
#[verifier::external_type_specification]
#[verifier::external_body]
pub struct ExRandError(rand::Error);

/// why a key could not be made, read or written
#[derive(Debug)]
pub enum PrivateKeyError {
    /// the stored time is outside the times that can be represented
    InvalidTimestamp,
    Rand(rand::Error),
    Encode(bincode::error::EncodeError),
    Decode(bincode::error::DecodeError),
}

/// what bincode's standard configuration decodes from the bytes as a
/// seconds count and the secret bytes, or `None` when it fails
pub uninterp spec fn spec_key_decode(bytes: Seq<u8>) -> Option<(i64, Seq<u8>)>;

/// what bincode's standard configuration encodes a seconds count and the
/// secret bytes to, or `None` when it fails
pub uninterp spec fn spec_key_encode(secs: i64, secret: Seq<u8>) -> Option<Seq<u8>>;

/// Calls `bincode::decode_from_slice` with the standard configuration for a
/// seconds count and the secret bytes; bytes after them are left unread.
/// The result is named `spec_key_decode` of the bytes; bincode's format is
/// not written out here.
#[verifier::external_body]
fn decode_key(given: &[u8]) -> (rtn: Result<(i64, [u8; 32]), bincode::error::DecodeError>)
    ensures
        match rtn {
            Ok((secs, secret)) => spec_key_decode(given@) == Some((secs, secret@)),
            Err(_) => spec_key_decode(given@) is None,
        },
{
    bincode::decode_from_slice::<(i64, [u8; 32]), _>(given, bincode::config::standard()).map(|(key, _)| key)
}

/// Calls `bincode::encode_to_vec` with the standard configuration on a
/// seconds count and the secret bytes. The result is named
/// `spec_key_encode` of them; as bincode's source shows (a zigzag varint
/// for the count, the 32 bytes as they are), decoding what it encodes gives
/// them back.
#[verifier::external_body]
fn encode_key(secs: i64, secret: &[u8; 32]) -> (rtn: Result<Vec<u8>, bincode::error::EncodeError>)
    ensures
        match rtn {
            Ok(bytes) => spec_key_encode(secs, secret@) == Some(bytes@) && spec_key_decode(bytes@) == Some(
                (secs, secret@),
            ),
            Err(_) => spec_key_encode(secs, secret@) is None,
        },
{
    bincode::encode_to_vec((secs, *secret), bincode::config::standard())
}

/// Calls `RngCore::try_fill_bytes` of the operating system's random
/// source on a key's worth of bytes. The bytes are random: nothing is
/// claimed of them.
#[verifier::external_body]
fn random_key_bytes() -> (rtn: Result<[u8; 32], rand::Error>) {
    let mut bytes = [0u8; 32];
    rand::RngCore::try_fill_bytes(&mut rand::rngs::OsRng, &mut bytes).map(|_| bytes)
}

/// what reading a stored key gives
pub enum KeyRead {
    /// the key, made at this time, with these secret bytes
    Read(Timestamp, Seq<u8>),
    /// the bytes are not a stored key
    Undecodable,
    /// the stored second cannot be represented
    InvalidTimestamp,
}

/// what reading a stored key gives: the second it was made, at no
/// nanoseconds, and its secret bytes
pub open spec fn spec_read_key(bytes: Seq<u8>) -> KeyRead {
    match spec_key_decode(bytes) {
        None => KeyRead::Undecodable,
        Some((secs, secret)) => if MIN_TIMESTAMP_SECS <= secs <= MAX_TIMESTAMP_SECS {
            KeyRead::Read(Timestamp { secs, nanos: 0 }, secret)
        } else {
            KeyRead::InvalidTimestamp
        },
    }
}

/// a private key: when it was made, to the second, and its secret bytes
#[derive(Debug)]
pub struct PrivateKey {
    created: Timestamp,
    secret: [u8; 32],
}

impl PrivateKey {
    /// when the key was made
    pub closed spec fn spec_created(&self) -> Timestamp {
        self.created
    }

    /// the secret bytes of the key
    pub closed spec fn spec_secret(&self) -> Seq<u8> {
        self.secret@
    }

    /// a new key made now from random bytes; `InvalidTimestamp` when the
    /// clock reads a time that cannot be represented
    pub fn generate() -> (rtn: Result<Self, PrivateKeyError>)
        ensures
            rtn matches Ok(k) ==> k.spec_created().wf(),
            rtn matches Err(e) ==> e is Rand || e is InvalidTimestamp,
    {
        let created = match utc_now() {
            Some(now) => now,
            None => return Err(PrivateKeyError::InvalidTimestamp),
        };
        match random_key_bytes() {
            Ok(secret) => Ok(PrivateKey { created, secret }),
            Err(e) => Err(PrivateKeyError::Rand(e)),
        }
    }

    /// the key made at the given second with the given secret bytes;
    /// `InvalidTimestamp` when the second cannot be represented
    pub fn from_parts(secs: i64, secret: [u8; 32]) -> (rtn: Result<Self, PrivateKeyError>)
        ensures
            MIN_TIMESTAMP_SECS <= secs <= MAX_TIMESTAMP_SECS ==> (rtn matches Ok(k) && k.spec_created() == (
            Timestamp { secs, nanos: 0 }) && k.spec_secret() == secret@),
            !(MIN_TIMESTAMP_SECS <= secs <= MAX_TIMESTAMP_SECS) ==> rtn matches Err(PrivateKeyError::InvalidTimestamp),
    {
        if secs < MIN_TIMESTAMP_SECS || secs > MAX_TIMESTAMP_SECS {
            return Err(PrivateKeyError::InvalidTimestamp);
        }
        Ok(PrivateKey { created: Timestamp { secs, nanos: 0 }, secret })
    }

    /// reads a key from its stored form: the second it was made and its
    /// secret bytes
    pub fn from_bytes(given: &[u8]) -> (rtn: Result<Self, PrivateKeyError>)
        ensures
            match spec_read_key(given@) {
                KeyRead::Undecodable => rtn matches Err(PrivateKeyError::Decode(_)),
                KeyRead::Read(created, secret) => (rtn matches Ok(k) && k.spec_created() == created
                    && k.spec_secret() == secret),
                KeyRead::InvalidTimestamp => rtn matches Err(PrivateKeyError::InvalidTimestamp),
            },
    {
        match decode_key(given) {
            Ok((secs, secret)) => Self::from_parts(secs, secret),
            Err(e) => Err(PrivateKeyError::Decode(e)),
        }
    }

    /// when the key was made
    pub fn created(&self) -> (rtn: &Timestamp)
        ensures
            *rtn == self.spec_created(),
    {
        &self.created
    }

    /// the secret bytes of the key
    pub fn secret(&self) -> (rtn: &[u8; 32])
        ensures
            rtn@ == self.spec_secret(),
    {
        &self.secret
    }

    /// the stored form of the key: the second it was made and its secret
    /// bytes
    pub fn as_bytes(&self) -> (rtn: Result<Vec<u8>, PrivateKeyError>)
        ensures
            match spec_key_encode(self.spec_created().secs, self.spec_secret()) {
                Some(b) => (rtn matches Ok(v) && v@ == b),
                None => rtn matches Err(PrivateKeyError::Encode(_)),
            },
            rtn matches Ok(v) ==> spec_key_decode(v@) == Some((self.spec_created().secs, self.spec_secret())),
    {
        match encode_key(self.created.secs, &self.secret) {
            Ok(bytes) => Ok(bytes),
            Err(e) => Err(PrivateKeyError::Encode(e)),
        }
    }
}

/// A key that is stored and read back is the same key, to the second: its
/// stored form reads as the second it was made, at no nanoseconds, with the
/// same secret bytes.
pub proof fn lemma_stored_key_reads_back(created: Timestamp, secret: Seq<u8>, stored: Seq<u8>)
    requires
        created.wf(),
        spec_key_decode(stored) == Some((created.secs, secret)),
    ensures
        spec_read_key(stored) == KeyRead::Read(Timestamp { secs: created.secs, nanos: 0 }, secret),
{
}

} // verus!
