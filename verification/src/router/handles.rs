//! The handlers of the current router.

pub mod admin;
pub mod api;
pub mod journals;
pub mod login;
pub mod me;
pub mod settings;
pub mod verify;
