//! Emulation of a three-voice programmable sound generator chip: three
//! square-wave tone oscillators, a shared 17-bit feedback-shift-register noise
//! source, a shared 16-step envelope generator, and the register file and
//! mixer that expose them to a host CPU as a port-mapped device.
//!
//! Every operation is a deterministic function of the current state and the
//! caller-supplied count of elapsed clock ticks; the contracts pin each state
//! transition and each produced sample exactly.

pub mod envelope;
pub mod noise;
pub mod phase;
pub mod psg;
pub mod tone;

pub use psg::Psg;
