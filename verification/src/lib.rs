//! Isolation and artifact-storage core of a build daemon.
//!
//! The crate holds the decisions of the daemon: how messages are framed on a
//! channel, which step of the spawn handshake comes next, which user-namespace
//! mappings are acceptable, and how the store counts the holders of each path.
//! What the crate decides is verified against its contracts. The few calls
//! into `dashmap` and `crc` are believed as their wrappers document them.
//! Performing the effects (sockets, processes, files) is left to the caller.

pub mod channel;
pub mod lock_table;
pub mod process;
pub mod store;
pub mod supervisor_process;
pub mod user_ns;
pub mod zygote_laws;
pub mod zygote_process;
