//! What a plugin tells the library about itself: its ports, their kinds,
//! hints and defaults, and its properties.  Bounds are held as the bit
//! patterns of the `f32` values they stand for.
use vstd::prelude::*;

use crate::ffi::ladspa_h;

verus! {

/// The kind of a port.
#[derive(Clone, Copy, Debug, PartialEq, Eq, Structural)]
pub enum PortDescriptor {
    Invalid,
    AudioInput,
    AudioOutput,
    ControlInput,
    ControlOutput,
}

impl PortDescriptor {
    /// The `LADSPA_PortDescriptor` bits of this kind.
    pub open spec fn spec_code(self) -> i32 {
        match self {
            PortDescriptor::Invalid => 0,
            PortDescriptor::AudioInput => ladspa_h::PORT_AUDIO | ladspa_h::PORT_INPUT,
            PortDescriptor::AudioOutput => ladspa_h::PORT_AUDIO | ladspa_h::PORT_OUTPUT,
            PortDescriptor::ControlInput => ladspa_h::PORT_CONTROL | ladspa_h::PORT_INPUT,
            PortDescriptor::ControlOutput => ladspa_h::PORT_CONTROL | ladspa_h::PORT_OUTPUT,
        }
    }

    pub open spec fn is_input(self) -> bool {
        self is AudioInput || self is ControlInput
    }

    pub open spec fn is_output(self) -> bool {
        self is AudioOutput || self is ControlOutput
    }

    pub open spec fn is_audio(self) -> bool {
        self is AudioInput || self is AudioOutput
    }

    pub open spec fn is_control(self) -> bool {
        self is ControlInput || self is ControlOutput
    }

    /// The `LADSPA_PortDescriptor` bits of this kind.
    pub fn code(&self) -> (r: i32)
        ensures
            r == self.spec_code(),
    {
        match self {
            PortDescriptor::Invalid => 0,
            PortDescriptor::AudioInput => ladspa_h::PORT_AUDIO | ladspa_h::PORT_INPUT,
            PortDescriptor::AudioOutput => ladspa_h::PORT_AUDIO | ladspa_h::PORT_OUTPUT,
            PortDescriptor::ControlInput => ladspa_h::PORT_CONTROL | ladspa_h::PORT_INPUT,
            PortDescriptor::ControlOutput => ladspa_h::PORT_CONTROL | ladspa_h::PORT_OUTPUT,
        }
    }
}

/// The code of every kind reads back as that kind: the input bit is set
/// exactly for inputs, the output bit exactly for outputs, the audio bit
/// exactly for audio ports and the control bit exactly for control ports, and
/// no other bit is set.
pub proof fn lemma_port_code_bits(d: PortDescriptor)
    ensures
        (d.spec_code() & ladspa_h::PORT_INPUT != 0) == d.is_input(),
        (d.spec_code() & ladspa_h::PORT_OUTPUT != 0) == d.is_output(),
        (d.spec_code() & ladspa_h::PORT_AUDIO != 0) == d.is_audio(),
        (d.spec_code() & ladspa_h::PORT_CONTROL != 0) == d.is_control(),
        d.spec_code() & !0xFi32 == 0,
{
    assert(0i32 & 1 == 0 && 0i32 & 2 == 0 && 0i32 & 4 == 0 && 0i32 & 8 == 0 && 0i32 & !0xFi32 == 0)
        by (bit_vector);
    assert((8i32 | 1) & 1 != 0 && (8i32 | 1) & 2 == 0 && (8i32 | 1) & 8 != 0 && (8i32 | 1) & 4 == 0
        && (8i32 | 1) & !0xFi32 == 0) by (bit_vector);
    assert((8i32 | 2) & 1 == 0 && (8i32 | 2) & 2 != 0 && (8i32 | 2) & 8 != 0 && (8i32 | 2) & 4 == 0
        && (8i32 | 2) & !0xFi32 == 0) by (bit_vector);
    assert((4i32 | 1) & 1 != 0 && (4i32 | 1) & 2 == 0 && (4i32 | 1) & 8 == 0 && (4i32 | 1) & 4 != 0
        && (4i32 | 1) & !0xFi32 == 0) by (bit_vector);
    assert((4i32 | 2) & 1 == 0 && (4i32 | 2) & 2 != 0 && (4i32 | 2) & 8 == 0 && (4i32 | 2) & 4 != 0
        && (4i32 | 2) & !0xFi32 == 0) by (bit_vector);
}

/// Distinct kinds have distinct codes.
pub proof fn lemma_port_code_injective(a: PortDescriptor, b: PortDescriptor)
    requires
        a.spec_code() == b.spec_code(),
    ensures
        a == b,
{
    assert((8i32 | 1) == 9 && (8i32 | 2) == 10 && (4i32 | 1) == 5 && (4i32 | 2) == 6) by (bit_vector);
}

/// The default value of a control port.
#[derive(Clone, Copy, Debug, PartialEq, Eq, Structural)]
pub enum DefaultValue {
    Minimum,
    Low,
    Middle,
    High,
    Maximum,
    Value0,
    Value1,
    Value100,
    Value440,
}

impl DefaultValue {
    /// The `HINT_DEFAULT_*` bits of this default.
    pub open spec fn spec_code(self) -> i32 {
        match self {
            DefaultValue::Minimum => ladspa_h::HINT_DEFAULT_MINIMUM,
            DefaultValue::Low => ladspa_h::HINT_DEFAULT_LOW,
            DefaultValue::Middle => ladspa_h::HINT_DEFAULT_MIDDLE,
            DefaultValue::High => ladspa_h::HINT_DEFAULT_HIGH,
            DefaultValue::Maximum => ladspa_h::HINT_DEFAULT_MAXIMUM,
            DefaultValue::Value0 => ladspa_h::HINT_DEFAULT_0,
            DefaultValue::Value1 => ladspa_h::HINT_DEFAULT_1,
            DefaultValue::Value100 => ladspa_h::HINT_DEFAULT_100,
            DefaultValue::Value440 => ladspa_h::HINT_DEFAULT_440,
        }
    }

    /// The `HINT_DEFAULT_*` bits of this default.
    pub fn code(&self) -> (r: i32)
        ensures
            r == self.spec_code(),
    {
        match self {
            DefaultValue::Minimum => ladspa_h::HINT_DEFAULT_MINIMUM,
            DefaultValue::Low => ladspa_h::HINT_DEFAULT_LOW,
            DefaultValue::Middle => ladspa_h::HINT_DEFAULT_MIDDLE,
            DefaultValue::High => ladspa_h::HINT_DEFAULT_HIGH,
            DefaultValue::Maximum => ladspa_h::HINT_DEFAULT_MAXIMUM,
            DefaultValue::Value0 => ladspa_h::HINT_DEFAULT_0,
            DefaultValue::Value1 => ladspa_h::HINT_DEFAULT_1,
            DefaultValue::Value100 => ladspa_h::HINT_DEFAULT_100,
            DefaultValue::Value440 => ladspa_h::HINT_DEFAULT_440,
        }
    }
}

/// Control hints of a port: a set of `HINT_TOGGLED`, `HINT_SAMPLE_RATE`,
/// `HINT_LOGARITHMIC` and `HINT_INTEGER`.
#[derive(Clone, Copy, Debug, PartialEq, Eq, Structural)]
pub struct ControlHint {
    bits: i32,
}

impl ControlHint {
    pub closed spec fn spec_bits(self) -> i32 {
        self.bits
    }

    /// Only control-hint bits are set.
    pub open spec fn wf(self) -> bool {
        self.spec_bits() & !ladspa_h::HINT_CONTROL_MASK == 0
    }

    /// The hints whose bits are set in `bits`; other bits are dropped.
    pub fn from_bits_truncate(bits: i32) -> (r: ControlHint)
        ensures
            r.spec_bits() == bits & ladspa_h::HINT_CONTROL_MASK,
            r.wf(),
    {
        let r = ControlHint { bits: bits & ladspa_h::HINT_CONTROL_MASK };
        assert((bits & 0x3Ci32) & !0x3Ci32 == 0) by (bit_vector);
        r
    }

    /// The bits of these hints.
    pub fn bits(&self) -> (r: i32)
        ensures
            r == self.spec_bits(),
    {
        self.bits
    }
}

/// Properties of a plugin: a set of `PROPERTY_REALTIME`,
/// `PROPERTY_INPLACE_BROKEN` and `PROPERTY_HARD_RT_CAPABLE`.
#[derive(Clone, Copy, Debug, PartialEq, Eq, Structural)]
pub struct Properties {
    bits: i32,
}

impl Properties {
    pub closed spec fn spec_bits(self) -> i32 {
        self.bits
    }

    /// The properties whose bits are set in `bits`; other bits are dropped.
    pub fn from_bits_truncate(bits: i32) -> (r: Properties)
        ensures
            r.spec_bits() == bits & 0x7,
    {
        Properties { bits: bits & 0x7 }
    }

    /// The bits of these properties.
    pub fn bits(&self) -> (r: i32)
        ensures
            r == self.spec_bits(),
    {
        self.bits
    }
}

/// One port of a plugin.  `lower_bound` and `upper_bound` are the bit patterns
/// of the `f32` bounds.
#[derive(Clone, Debug)]
pub struct Port {
    pub name: String,
    pub desc: PortDescriptor,
    pub hint: Option<ControlHint>,
    pub default: Option<DefaultValue>,
    pub lower_bound: Option<u32>,
    pub upper_bound: Option<u32>,
}

impl Port {
    /// Its control hints are well formed.
    pub open spec fn wf(self) -> bool {
        self.hint matches Some(h) ==> h.wf()
    }
}

/// What a plugin describes of itself.
#[derive(Clone, Debug)]
pub struct PluginDescriptor {
    pub unique_id: u64,
    pub label: String,
    pub properties: Properties,
    pub name: String,
    pub maker: String,
    pub copyright: String,
    pub ports: Vec<Port>,
}

/// Where the host placed the data of a connected port.  `location` is the
/// address of the first sample; `len` is the number of samples the plugin may
/// read or write there (zero until the first run).
#[derive(Clone, Copy, Debug, PartialEq, Eq, Structural)]
pub enum PortData {
    AudioInput { location: usize, len: usize },
    AudioOutput { location: usize, len: usize },
    ControlInput { location: usize },
    ControlOutput { location: usize },
}

/// A port together with the data the host connected to it.
#[derive(Clone, Copy, Debug, PartialEq, Eq, Structural)]
pub struct PortConnection {
    pub port: usize,
    pub data: PortData,
}

} // verus!
