//! The host-facing side of a LADSPA plugin library: the C descriptor that a
//! host reads, the table of descriptors handed out so far, and the per-instance
//! port bookkeeping, each with its contract.

pub mod ffi;
pub mod plugin;
pub mod port_map;
