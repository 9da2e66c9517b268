//! The constants and plain records of `ladspa.h`.
use vstd::prelude::*;

verus! {

/// Plugin property bits (`LADSPA_Properties`).
pub type Properties = i32;

/// Port descriptor bits (`LADSPA_PortDescriptor`).
pub type PortDescriptor = i32;

/// Port range hint bits (`LADSPA_PortRangeHintDescriptor`).
pub type PortRangeHintDescriptor = i32;

pub const PROPERTY_REALTIME: Properties = 0x1;
pub const PROPERTY_INPLACE_BROKEN: Properties = 0x2;
pub const PROPERTY_HARD_RT_CAPABLE: Properties = 0x4;

pub const PORT_INPUT: PortDescriptor = 0x1;
pub const PORT_OUTPUT: PortDescriptor = 0x2;
pub const PORT_CONTROL: PortDescriptor = 0x4;
pub const PORT_AUDIO: PortDescriptor = 0x8;

pub const HINT_BOUNDED_BELOW: PortRangeHintDescriptor = 0x1;
pub const HINT_BOUNDED_ABOVE: PortRangeHintDescriptor = 0x2;
pub const HINT_TOGGLED: PortRangeHintDescriptor = 0x4;
pub const HINT_SAMPLE_RATE: PortRangeHintDescriptor = 0x8;
pub const HINT_LOGARITHMIC: PortRangeHintDescriptor = 0x10;
pub const HINT_INTEGER: PortRangeHintDescriptor = 0x20;
pub const HINT_DEFAULT_MINIMUM: PortRangeHintDescriptor = 0x40;
pub const HINT_DEFAULT_LOW: PortRangeHintDescriptor = 0x80;
pub const HINT_DEFAULT_MIDDLE: PortRangeHintDescriptor = 0xC0;
pub const HINT_DEFAULT_HIGH: PortRangeHintDescriptor = 0x100;
pub const HINT_DEFAULT_MAXIMUM: PortRangeHintDescriptor = 0x140;
pub const HINT_DEFAULT_0: PortRangeHintDescriptor = 0x200;
pub const HINT_DEFAULT_1: PortRangeHintDescriptor = 0x240;
pub const HINT_DEFAULT_100: PortRangeHintDescriptor = 0x280;
pub const HINT_DEFAULT_440: PortRangeHintDescriptor = 0x2C0;

/// The bits of a range hint that are control hints (toggled, sample rate,
/// logarithmic, integer).
pub const HINT_CONTROL_MASK: PortRangeHintDescriptor = 0x3C;

/// The bits of a range hint that select a default value.
pub const HINT_DEFAULT_MASK: PortRangeHintDescriptor = 0x3C0;

/// A port's range hint.  The bounds are single-precision floats in C; here
/// each is held as its IEEE-754 bit pattern (`f32::to_bits`), so that `0`
/// stands for `0.0`.
#[derive(Clone, Copy, Debug, PartialEq, Eq, Structural)]
pub struct PortRangeHint {
    pub hint_descriptor: PortRangeHintDescriptor,
    pub lower_bound: u32,
    pub upper_bound: u32,
}

} // verus!
