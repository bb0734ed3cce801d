//! Authentication core of an invitation-gated identity service: invitation
//! keys that are redeemed once, password checks, and signed session tokens.

pub mod controllers;
pub mod models;
pub mod routes;
pub mod utils;
