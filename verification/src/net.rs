//! Pieces of http requests and responses that the handlers share.

pub mod body;
pub mod error;
pub mod header;
