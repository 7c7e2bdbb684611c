//! The remote-call block of a block-oriented pipeline engine: its parsed
//! definition, the fingerprint of that definition, and the decisions of one
//! execution, each stated as a contract over a mathematical model.
//!
//! The library does no I/O. Work that needs the outside world is handed out
//! as an action and its outcome is taken back as an event; see
//! [`execute::Execution`] and [`remote_call::CachedCall`].

pub mod block;
pub mod config;
pub mod definition;
pub mod execute;
pub mod fingerprint;
pub mod hex;
pub mod remote_call;

pub use block::{BlockType, Error};
pub use definition::Curl;
