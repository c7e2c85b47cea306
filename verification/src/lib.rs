//! The decisions of a desktop application shell: the text of its one
//! command, what its one-shot set-up does, the phases it passes through and
//! the message it gives up with.
//!
//! The window system itself is driven from outside this library; everything
//! here is a function from plain values to plain values.

pub mod failure;
pub mod greeting;
pub mod lifecycle;
pub mod lifecycle_proofs;
pub mod setup;
