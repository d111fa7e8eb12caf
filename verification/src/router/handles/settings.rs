//! The handlers of a user's settings.

pub mod peer_client;
