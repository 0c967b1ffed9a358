//! Verified core of the Nexus account manager.
//!
//! The library finds out what to do and leaves the doing to its caller: it
//! decrypts stored session cookies, builds every request and reads every
//! answer, runs the anti-forgery handshake and the launch of the client step
//! by step, and keeps the state of the singleton lock. It opens no file and
//! no connection. What it calls of other crates stands in `deps`, each call
//! under a contract that is stated and not proved.

pub mod account;
pub mod api;
pub mod auth;
pub mod deps;
pub mod error;
pub mod games;
pub mod strings;
