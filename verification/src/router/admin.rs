//! The administration handlers: users, roles, groups, invites and remote
//! servers.

pub mod groups;
pub mod invites;
pub mod roles;
pub mod servers;
pub mod users;
