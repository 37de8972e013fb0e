//! Mic button controller: the hardware-independent logic.

pub mod laws;
pub mod logic;
