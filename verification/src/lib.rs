//! Host-side register programming for an AD9959-class DDS chip behind a USB bridge.
//!
//! The crate holds the protocol itself: the bit-serial wire codec, the frames
//! that make up a programming pass, the rule that picks the device, the checks
//! on its descriptors, and the two step machines (session setup, register
//! writes) that a transport loop drives. It performs no I/O.

pub mod codec;
pub mod endpoints;
pub mod error;
pub mod frame;
pub mod locator;
pub mod sequencer;
pub mod setup;
pub mod tuning;
