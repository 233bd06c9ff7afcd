//! A safe, allocation-owning wrapper around a pointer-based real-valued FFT
//! engine.
//!
//! The engine itself is an opaque outside collaborator: it hands out a plan
//! for a fixed width, runs a transform over three 16-byte-aligned buffers,
//! and must be given the plan back exactly once.  Everything a safe wrapper
//! has to get right around that capability lives here, verified: the
//! over-allocate-and-slide alignment strategy, the strict size agreement
//! between plan and buffers, the copy-in/copy-out discipline, and the
//! plan's release-exactly-once state machine.
//!
//! The numeric transform is not performed in this crate.  A caller (the
//! unverified shell that links the engine) drives one transform as:
//! `prepare_transform`, then the engine over the aligned windows, then
//! `collect_output`.  Forward and backward transforms are unscaled: running
//! one after the other does not restore the signal without a `1/width`
//! rescale, which this wrapper deliberately does not perform.

pub mod align;
pub mod laws;
pub mod setup;
