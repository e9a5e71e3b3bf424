//! Supervision of a locally spawned backend process: where its environment
//! lives, how that environment is prepared, and which process is held.
//!
//! The library decides; the application around it acts. Every probe of the
//! file system, every command and every spawn is described by a value that
//! the library hands out, and the result comes back as a plain value.

pub mod error;
pub mod ledger;
pub mod paths;
pub mod platform;
pub mod progress;
pub mod protocol;
pub mod provision;
pub mod supervisor;
pub mod text;
pub mod transcript;
