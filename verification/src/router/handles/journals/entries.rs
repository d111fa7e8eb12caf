//! The handlers of a journal's entries.

pub mod files;
pub mod search;
