//! The authentication core of a web service: digests of passwords, signed
//! session tokens, the authentication of a request from its header, and the
//! failures and envelopes that every endpoint answers with.
//!
//! The library holds no state and does no input or output of its own. The
//! signing secret and the lifetime of a token are handed in by the caller.
//! Every function that depends on the time has a twin that takes the time
//! as an argument.

pub mod accounts;
pub mod config;
pub mod error;
pub mod identity;
pub mod password;
pub mod response;
pub mod token;
