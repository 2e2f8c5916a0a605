//! A single-account calculator: a four-byte stored value, an authorization
//! check on the caller, a tagged binary instruction and a checked arithmetic
//! step, composed into one all-or-nothing state transition.

pub mod auth;
pub mod codec;
pub mod eval;
pub mod processor;
