//! The handlers under `/journals`.

pub mod entries;
pub mod share;
