//! The api that peer servers call.

pub mod journals;
