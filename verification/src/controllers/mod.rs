//! The operations that the service offers, from a request's form to its answer.

pub mod key;
pub mod response;
pub mod user;
