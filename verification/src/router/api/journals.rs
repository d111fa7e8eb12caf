//! The journals a peer sends.

pub mod journals_id;
