//! Verified core of the TJ2 journal server: encodings, identifiers,
//! configuration merging, journal data rules and request helpers.

pub mod hex;
pub mod db;
pub mod time;
pub mod journal;
pub mod text;
pub mod path;
pub mod error;
pub mod config;
pub mod net;
pub mod header;
pub mod cookie;
pub mod fs;
pub mod router;
pub mod cli;
pub mod tools;
pub mod jobs;
pub mod pki;
pub mod api;
