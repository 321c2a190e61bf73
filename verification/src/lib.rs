//! Core logic of a focus-mode display controller: encoding display-topology
//! apply requests into the OS flag bitmask, the buffer-size negotiation
//! protocol for querying the current display configuration, a model of the
//! shell's folder-view flag word that governs desktop-icon visibility, and
//! the state machine that keeps topology and icon visibility consistent.
//!
//! The operating-system calls themselves (display configuration, shell COM
//! navigation, window messaging) are left to the embedding process; this
//! crate decides what to ask of them and proves the decisions correct.

pub mod controller;
pub mod error;
pub mod icons;
pub mod qdc;
pub mod sdc;
