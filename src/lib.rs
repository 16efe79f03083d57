//! A single-use rendezvous cell that hands one value from a signaling role to
//! a waiting role.
//!
//! The library holds the protocol's decisions: the status word and its legal
//! transitions, what a signaler must do to wake its waiter, the wait loops'
//! step functions, and a sequential model of one signal over its lifetime.
pub mod status;
pub mod wake;
pub mod signal;
pub mod wait;

pub use status::{LOCKED, LOCKED_ESCALATED, TERMINATED, UNLOCKED};
