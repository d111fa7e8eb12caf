//! The handlers of a journal's shares.

pub mod invite;
