//! The survival lifecycle of a playable character: a short window of
//! invulnerability after a hit, and a one-shot death sequence that ends the
//! session after a fixed delay.
//!
//! All times are whole nanoseconds.

pub mod countdown;
pub mod player;
pub mod presentation;
pub mod plugin;
pub mod laws;
