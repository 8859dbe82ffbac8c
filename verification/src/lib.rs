//! Verified core of a one-pass branch synchronizer: it classifies each local
//! branch against its remote-tracking counterpart, decides the per-branch
//! action (prompting where automatic resolution is unsafe), and guards the
//! whole run behind a clean working tree.

pub mod branches;
pub mod bytes;
pub mod classify;
pub mod engine;
pub mod errors;
pub mod gateway;
pub mod guard;
pub mod remote;
