//! The request handlers' own logic: request bodies, answers, and the
//! decisions taken between database calls.

pub mod admin;
pub mod api;
pub mod auth;
pub mod body;
pub mod entries;
pub mod handles;
pub mod journals;
