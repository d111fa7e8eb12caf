//! The entries of a journal a peer sends.

pub mod entries;
