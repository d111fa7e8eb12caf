//! The administration handlers of the current router.

pub mod groups;
