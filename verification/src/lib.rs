//! Host-side engine of a zero-knowledge virtual machine: the configuration of
//! a proving session, the bridge that answers a guest's host calls, the
//! controller that chains bounded segments of execution into receipts, and
//! the envelope that labels stored artifacts.
//!
//! The guest interpreter, the proof system and all I/O live outside this
//! crate. The library decides; its caller performs what was decided and hands
//! the outcome back as plain values.

pub mod metadata;
pub mod opts;
pub mod prover;
pub mod receipt;
pub mod syscall;
pub mod text;
pub mod trace;
