//! The decisions of a binding to a native library's random-number facilities.
//!
//! The native library fills buffers with random bytes and runs deterministic
//! random bit generators. This crate holds what a safe binding to it decides:
//! which native calls are made, in which order and with which arguments, how a
//! status code becomes a result, and how long a generator handle lives. It
//! makes none of the calls itself: see [`native`].

pub mod drbg;
pub mod error;
pub mod native;
pub mod rand;
