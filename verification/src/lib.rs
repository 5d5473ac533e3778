//! Session-scoped authorization: a user identity (possibly anonymous) is
//! resolved from a session and evaluated against a required permission set
//! before a protected operation proceeds.
//!
//! The crate has three parts: the authorization evaluator (`auth`), the
//! session identity binding and user store (`session`), and the protected
//! operations that a server exposes to clients (`ops`).

pub mod auth;
pub mod ops;
pub mod session;
