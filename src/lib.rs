//! Authentication and token helpers for generated web services, together with
//! the small text helpers used when patching generated source files.

pub mod auth;
pub mod bearer;
pub mod claims;
pub mod failure;
pub mod jwt;
pub mod naming;
pub mod parens;
pub mod patch;
pub mod scaffold;
mod strings;
pub mod verdict;
