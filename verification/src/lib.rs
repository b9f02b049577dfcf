//! Sign-in for a desktop game launcher: the device-code session, the chain of
//! token exchanges that turns an identity-provider token into a game session,
//! the keys under which the resulting secrets are kept, and the small amount
//! of Java-runtime and process bookkeeping the launcher needs around it.
//!
//! Network traffic is not performed here. Every exchange is split into a
//! request value that the caller sends and a reply value that the caller hands
//! back; what happens next is decided by the functions of this crate. The
//! credential store, the clock and the source of fresh identifiers are reached
//! directly, through the `keyring`, `chrono` and `uuid` crates.

pub mod backend;
pub mod chain;
pub mod config;
pub mod error;
pub mod java;
pub mod launcher;
pub mod model;
pub mod request;
pub mod secrets;
pub mod session;
pub mod text;
