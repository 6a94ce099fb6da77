//! Dispatch and reply logic for a user-space filesystem bridge.
//!
//! The kernel protocol delivers one request per filesystem operation and
//! expects exactly one reply for it. This library holds the decisions of that
//! bridge as plain, verified functions: how each failure maps to an OS error
//! code, what an operation yields when a filesystem does not provide it, how a
//! request is scheduled, and which single reply an operation's outcome becomes.
pub mod error;
pub mod types;
pub mod request;
pub mod outcome;
pub mod reply;
pub mod file_model;
