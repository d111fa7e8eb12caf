//! The management tool of a server: its database and security commands.

pub mod db;
pub mod sec;
