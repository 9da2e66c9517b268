use ladspa::ffi::ladspa_h;
use ladspa::ffi::ladspa_h::PortRangeHint;
use ladspa::ffi::{port_range_hint, Descriptor, DescriptorTable, Handle};
use ladspa::plugin::{
    ControlHint, DefaultValue, PluginDescriptor, Port, PortConnection, PortData, PortDescriptor,
    Properties,
};

fn port(name: &str, desc: PortDescriptor) -> Port {
    Port {
        name: name.to_string(),
        desc,
        hint: None,
        default: None,
        lower_bound: None,
        upper_bound: None,
    }
}

fn amp_plugin() -> PluginDescriptor {
    let mut gain = port("Gain", PortDescriptor::ControlInput);
    gain.hint = Some(ControlHint::from_bits_truncate(ladspa_h::HINT_LOGARITHMIC));
    gain.default = Some(DefaultValue::Value1);
    gain.lower_bound = Some(0.0f32.to_bits());
    gain.upper_bound = Some(10.0f32.to_bits());
    PluginDescriptor {
        unique_id: 4242,
        label: "amp".to_string(),
        properties: Properties::from_bits_truncate(ladspa_h::PROPERTY_REALTIME),
        name: "Amplifier".to_string(),
        maker: "Someone".to_string(),
        copyright: "None".to_string(),
        ports: vec![
            port("In", PortDescriptor::AudioInput),
            port("Out", PortDescriptor::AudioOutput),
            gain,
        ],
    }
}

#[test]
fn port_codes_match_ladspa_h() {
    assert_eq!(PortDescriptor::Invalid.code(), 0);
    assert_eq!(PortDescriptor::AudioInput.code(), 9);
    assert_eq!(PortDescriptor::AudioOutput.code(), 10);
    assert_eq!(PortDescriptor::ControlInput.code(), 5);
    assert_eq!(PortDescriptor::ControlOutput.code(), 6);
}

#[test]
fn port_code_bits_read_back_as_kind() {
    for d in [
        PortDescriptor::AudioInput,
        PortDescriptor::AudioOutput,
        PortDescriptor::ControlInput,
        PortDescriptor::ControlOutput,
    ] {
        let c = d.code();
        let input = matches!(d, PortDescriptor::AudioInput | PortDescriptor::ControlInput);
        let audio = matches!(d, PortDescriptor::AudioInput | PortDescriptor::AudioOutput);
        assert_eq!(c & ladspa_h::PORT_INPUT != 0, input);
        assert_eq!(c & ladspa_h::PORT_OUTPUT != 0, !input);
        assert_eq!(c & ladspa_h::PORT_AUDIO != 0, audio);
        assert_eq!(c & ladspa_h::PORT_CONTROL != 0, !audio);
    }
}

#[test]
fn default_codes_match_ladspa_h() {
    assert_eq!(DefaultValue::Minimum.code(), 0x40);
    assert_eq!(DefaultValue::Low.code(), 0x80);
    assert_eq!(DefaultValue::Middle.code(), 0xC0);
    assert_eq!(DefaultValue::High.code(), 0x100);
    assert_eq!(DefaultValue::Maximum.code(), 0x140);
    assert_eq!(DefaultValue::Value0.code(), 0x200);
    assert_eq!(DefaultValue::Value1.code(), 0x240);
    assert_eq!(DefaultValue::Value100.code(), 0x280);
    assert_eq!(DefaultValue::Value440.code(), 0x2C0);
}

#[test]
fn control_hint_drops_other_bits() {
    let h = ControlHint::from_bits_truncate(0x7FF);
    assert_eq!(h.bits(), 0x3C);
    let p = Properties::from_bits_truncate(0xFF);
    assert_eq!(p.bits(), 0x7);
}

#[test]
fn range_hint_of_bare_port_is_zero() {
    let p = port("In", PortDescriptor::AudioInput);
    assert_eq!(
        port_range_hint(&p),
        PortRangeHint { hint_descriptor: 0, lower_bound: 0, upper_bound: 0 }
    );
}

#[test]
fn range_hint_combines_hints_default_and_bounds() {
    let mut p = port("Freq", PortDescriptor::ControlInput);
    p.hint = Some(ControlHint::from_bits_truncate(ladspa_h::HINT_TOGGLED));
    p.default = Some(DefaultValue::Value1);
    p.lower_bound = Some(1.5f32.to_bits());
    let r = port_range_hint(&p);
    assert_eq!(r.hint_descriptor, 0x4 | 0x240 | 0x1);
    assert_eq!(r.hint_descriptor, 0x245);
    assert_eq!(f32::from_bits(r.lower_bound), 1.5);
    assert_eq!(r.upper_bound, 0);
    assert_eq!(f32::from_bits(r.upper_bound), 0.0);
}

#[test]
fn range_hint_reads_back_as_port() {
    let mut p = port("Freq", PortDescriptor::ControlInput);
    p.hint = Some(ControlHint::from_bits_truncate(ladspa_h::HINT_SAMPLE_RATE | ladspa_h::HINT_INTEGER));
    p.default = Some(DefaultValue::Value440);
    p.upper_bound = Some(0.5f32.to_bits());
    let h = port_range_hint(&p).hint_descriptor;
    assert_eq!(h & ladspa_h::HINT_BOUNDED_BELOW, 0);
    assert_ne!(h & ladspa_h::HINT_BOUNDED_ABOVE, 0);
    assert_eq!(h & ladspa_h::HINT_CONTROL_MASK, 0x28);
    assert_eq!(h & ladspa_h::HINT_DEFAULT_MASK, ladspa_h::HINT_DEFAULT_440);
}

#[test]
fn descriptor_describes_plugin() {
    let plugin = amp_plugin();
    let d = Descriptor::from_plugin(&plugin);
    assert_eq!(d.unique_id, 4242);
    assert_eq!(d.label, "amp");
    assert_eq!(d.properties, ladspa_h::PROPERTY_REALTIME);
    assert_eq!(d.name, "Amplifier");
    assert_eq!(d.maker, "Someone");
    assert_eq!(d.copyright, "None");
    assert_eq!(d.port_count, 3);
    assert_eq!(d.port_descriptors, vec![9, 10, 5]);
    assert_eq!(d.port_names, vec!["In".to_string(), "Out".to_string(), "Gain".to_string()]);
    assert_eq!(d.port_range_hints.len(), 3);
    assert_eq!(d.port_range_hints[0].hint_descriptor, 0);
    assert_eq!(d.port_range_hints[2].hint_descriptor, 0x10 | 0x240 | 0x1 | 0x2);
    assert_eq!(f32::from_bits(d.port_range_hints[2].upper_bound), 10.0);
}

#[test]
fn descriptor_of_portless_plugin() {
    let mut plugin = amp_plugin();
    plugin.ports = Vec::new();
    let d = Descriptor::from_plugin(&plugin);
    assert_eq!(d.port_count, 0);
    assert!(d.port_descriptors.is_empty());
    assert!(d.port_names.is_empty());
    assert!(d.port_range_hints.is_empty());
}

#[test]
fn table_serves_stored_descriptors() {
    let mut t: DescriptorTable<u32> = DescriptorTable::new();
    assert_eq!(t.cached(0), None);
    t.store(0, 70);
    t.store(1, 71);
    assert_eq!(t.len(), 2);
    assert_eq!(t.cached(0), Some(70));
    assert_eq!(t.cached(1), Some(71));
    assert_eq!(t.cached(2), None);
    assert_eq!(t.cached(u64::MAX), None);
}

#[test]
fn table_keeps_other_entries_when_storing() {
    let mut t: DescriptorTable<u32> = DescriptorTable::new();
    t.store(0, 5);
    let before = t.cached(0);
    t.store(1, 6);
    assert_eq!(t.cached(0), before);
    assert_eq!(t.cached(1), Some(6));
}

#[test]
fn table_is_keyed_by_index_whatever_the_order() {
    let mut t: DescriptorTable<u32> = DescriptorTable::new();
    assert_eq!(t.cached(3), None);
    t.store(3, 33);
    assert_eq!(t.cached(0), None);
    assert_eq!(t.cached(3), Some(33));
    t.store(0, 10);
    assert_eq!(t.cached(0), Some(10));
    assert_eq!(t.cached(3), Some(33));
    assert_eq!(t.indices(), vec![3, 0]);
}

#[test]
fn table_store_replaces_same_index() {
    let mut t: DescriptorTable<u32> = DescriptorTable::new();
    t.store(2, 1);
    t.store(2, 9);
    assert_eq!(t.len(), 1);
    assert_eq!(t.cached(2), Some(9));
    assert_eq!(t.indices(), vec![2]);
    t.store(7, 4);
    t.store(2, 5);
    assert_eq!(t.indices(), vec![2, 7]);
}

#[test]
fn settle_stores_what_was_made() {
    let mut t: DescriptorTable<u32> = DescriptorTable::new();
    assert_eq!(t.settle(1, Some(11)), Some(11));
    assert_eq!(t.cached(1), Some(11));
    assert_eq!(t.cached(0), None);
}

#[test]
fn settle_without_descriptor_leaves_table() {
    let mut t: DescriptorTable<u32> = DescriptorTable::new();
    t.store(0, 1);
    assert_eq!(t.settle(5, None), None);
    assert_eq!(t.len(), 1);
    assert_eq!(t.cached(5), None);
    assert_eq!(t.cached(0), Some(1));
}

fn kinds() -> Vec<PortDescriptor> {
    vec![PortDescriptor::AudioInput, PortDescriptor::AudioOutput, PortDescriptor::ControlInput]
}

#[test]
fn new_handle_hands_nothing() {
    let mut h = Handle::new(kinds());
    assert_eq!(h.port_count(), 3);
    assert!(h.run(16).is_empty());
}

#[test]
fn partial_connection_hands_nothing() {
    let mut h = Handle::new(kinds());
    h.connect_port(0, 0x1000);
    h.connect_port(2, 0x3000);
    assert!(h.run(16).is_empty());
}

#[test]
fn full_connection_hands_ports_in_order() {
    let mut h = Handle::new(kinds());
    h.connect_port(2, 0x3000);
    h.connect_port(0, 0x1000);
    h.connect_port(1, 0x2000);
    let handed = h.run(64);
    assert_eq!(
        handed,
        vec![
            PortConnection { port: 0, data: PortData::AudioInput { location: 0x1000, len: 64 } },
            PortConnection { port: 1, data: PortData::AudioOutput { location: 0x2000, len: 64 } },
            PortConnection { port: 2, data: PortData::ControlInput { location: 0x3000 } },
        ]
    );
}

#[test]
fn run_resizes_audio_every_time() {
    let mut h = Handle::new(kinds());
    h.connect_port(0, 0x1000);
    h.connect_port(1, 0x2000);
    h.connect_port(2, 0x3000);
    h.run(64);
    let handed = h.run(8);
    assert_eq!(handed[0].data, PortData::AudioInput { location: 0x1000, len: 8 });
    assert_eq!(handed[1].data, PortData::AudioOutput { location: 0x2000, len: 8 });
    assert_eq!(handed[2].data, PortData::ControlInput { location: 0x3000 });
}

#[test]
fn reconnecting_replaces_and_resets_length() {
    let mut h = Handle::new(kinds());
    h.connect_port(0, 0x1000);
    h.connect_port(1, 0x2000);
    h.connect_port(2, 0x3000);
    h.run(64);
    h.connect_port(0, 0x9000);
    let handed = h.run(32);
    assert_eq!(handed.len(), 3);
    assert_eq!(handed[0], PortConnection { port: 0, data: PortData::AudioInput { location: 0x9000, len: 32 } });
}

#[test]
fn control_output_connection() {
    let mut h = Handle::new(vec![PortDescriptor::ControlOutput]);
    h.connect_port(0, 0x44);
    let handed = h.run(1);
    assert_eq!(handed, vec![PortConnection { port: 0, data: PortData::ControlOutput { location: 0x44 } }]);
}

#[test]
fn portless_handle_hands_nothing() {
    let mut h = Handle::new(Vec::new());
    assert!(h.run(4).is_empty());
}

#[test]
fn two_handles_are_independent() {
    let mut h1 = Handle::new(kinds());
    let mut h2 = Handle::new(kinds());
    h1.connect_port(0, 0x1000);
    h1.connect_port(1, 0x2000);
    h1.connect_port(2, 0x3000);
    assert_eq!(h1.run(16).len(), 3);
    assert!(h2.run(16).is_empty());
    h2.connect_port(0, 0x5000);
    h2.connect_port(1, 0x6000);
    h2.connect_port(2, 0x7000);
    let a = h1.run(4);
    let b = h2.run(8);
    assert_eq!(a[0].data, PortData::AudioInput { location: 0x1000, len: 4 });
    assert_eq!(b[0].data, PortData::AudioInput { location: 0x5000, len: 8 });
}
