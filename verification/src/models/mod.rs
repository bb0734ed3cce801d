//! Invitation keys, users, and the directory that holds them.

pub mod directory;
pub mod key;
pub mod user;
