//! The api handlers that peers call.

pub mod authn;
