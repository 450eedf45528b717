//! Lifecycle management for an `ngrok` tunnel process.
//!
//! The library holds the decisions: which configuration may start a tunnel, which
//! entry of `ngrok`'s local API belongs to the requested port and scheme, when to
//! keep polling that API, and the states of the supervisor that owns the process and
//! of the handle that callers keep. Spawning, sleeping and HTTP requests are left to
//! the program that drives these functions.
use vstd::prelude::*;

pub mod builder;
pub mod discovery;
pub mod error;
pub mod handle;
pub mod supervisor;
pub mod trusted;
