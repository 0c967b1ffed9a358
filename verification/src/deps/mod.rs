//! Contracts for the crates this library calls. Nothing in this module is
//! proved: each item states what the named function of another crate does.

pub mod aead;
pub mod encoding;
pub mod json;
pub mod pattern;
pub mod random;
pub mod text;
