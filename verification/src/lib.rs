//! The receiving half of a pipe: a worker that listens on a data address and
//! on a control address, runs every message through an ordered chain of
//! behavior hooks, and hands accepted payloads on to where they were headed.
//!
//! Nothing here performs I/O. A message arrives as plain values and the
//! receiver answers with what its host has to do next.
pub mod address;
pub mod behavior;
pub mod envelope;
pub mod probe;
pub mod receiver;
pub mod wire;
