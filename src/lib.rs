//! Clock recovery and hand-off primitives of a USB audio speaker.
//!
//! The capture path measures the local audio oscillator against the host's
//! frame-sync pulses and publishes one tick delta per refresh window; the
//! feedback mailbox carries the newest delta to the feedback task; the sample
//! channel moves received audio blocks to a consumer through two fixed buffers.

pub mod capture;
pub mod channel;
pub mod feedback;

