//! The messages that peers and clients exchange over the api.

pub mod authn;
