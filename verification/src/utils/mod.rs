//! The error taxonomy, the credential hasher, the session token codec and
//! the validation of forms.

pub mod errors;
pub mod hasher;
pub mod token;
pub mod validation;
