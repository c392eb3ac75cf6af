//! WCH-LinkRV probe support.
//!
//! The protocol of these probes is mostly undocumented and changes between firmware versions.
//!
//! The library decides what to send to a probe and what its answers mean. It does no USB transfers
//! itself: see [`link`] for how an operation runs.

pub mod bytes;
pub mod chip;
pub mod command;
pub mod discovery;
pub mod dmi;
pub mod error;
pub mod laws;
pub mod link;
pub mod step;
pub mod text;
pub mod variant;
