//! A user-account registry: validated user records, password credentials,
//! and a registry that keeps user ids unique.

pub mod prelude;
pub mod password;
pub mod user;
pub mod registry;
pub mod service;
