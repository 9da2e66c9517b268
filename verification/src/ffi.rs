//! What a LADSPA host sees of the plugin library: the descriptor built from a
//! plugin's own description, the table of descriptors handed out so far, and
//! the port bookkeeping of each plugin instance.
use vstd::prelude::*;

use crate::plugin::{Port, PortConnection, PortData, PluginDescriptor};
use crate::plugin;
use crate::port_map::{
    port_map_contents, port_map_get, port_map_insert, port_map_keys, port_map_len, port_map_new,
};
use std::collections::HashMap;
use vec_map::VecMap;

pub mod ladspa_h;

verus! {

// ---------------------------------------------------------------------------
// The descriptor of a plugin
// ---------------------------------------------------------------------------

/// The range-hint bits of a port: its control hints, its default, and one bit
/// for each bound it has.
pub open spec fn hint_descriptor_of(p: Port) -> i32 {
    (match p.hint {
        Some(h) => h.spec_bits(),
        None => 0i32,
    }) | (match p.default {
        Some(d) => d.spec_code(),
        None => 0i32,
    }) | (if p.lower_bound is Some {
        ladspa_h::HINT_BOUNDED_BELOW
    } else {
        0i32
    }) | (if p.upper_bound is Some {
        ladspa_h::HINT_BOUNDED_ABOVE
    } else {
        0i32
    })
}

/// The range hint of a port; a missing bound reads as `0.0`, whose bit
/// pattern is `0`.
pub open spec fn range_hint_of(p: Port) -> ladspa_h::PortRangeHint {
    ladspa_h::PortRangeHint {
        hint_descriptor: hint_descriptor_of(p),
        lower_bound: match p.lower_bound {
            Some(b) => b,
            None => 0u32,
        },
        upper_bound: match p.upper_bound {
            Some(b) => b,
            None => 0u32,
        },
    }
}

/// The range hint of a port.
pub fn port_range_hint(p: &Port) -> (r: ladspa_h::PortRangeHint)
    ensures
        r == range_hint_of(*p),
{
    let hint: i32 = match &p.hint {
        Some(h) => h.bits(),
        None => 0,
    };
    let default: i32 = match &p.default {
        Some(d) => d.code(),
        None => 0,
    };
    let below: i32 = match &p.lower_bound {
        Some(_) => ladspa_h::HINT_BOUNDED_BELOW,
        None => 0,
    };
    let above: i32 = match &p.upper_bound {
        Some(_) => ladspa_h::HINT_BOUNDED_ABOVE,
        None => 0,
    };
    ladspa_h::PortRangeHint {
        hint_descriptor: hint | default | below | above,
        lower_bound: match p.lower_bound {
            Some(b) => b,
            None => 0,
        },
        upper_bound: match p.upper_bound {
            Some(b) => b,
            None => 0,
        },
    }
}

/// A port's range hint reads back as the port: the bounded-below bit is set
/// exactly when the port has a lower bound, the bounded-above bit exactly
/// when it has an upper bound, the control-hint bits are the port's control
/// hints, and the default bits are the code of the port's default, or zero
/// when it has none.
pub proof fn lemma_hint_descriptor_decodes(p: Port)
    requires
        p.wf(),
    ensures
        (hint_descriptor_of(p) & ladspa_h::HINT_BOUNDED_BELOW != 0) == (p.lower_bound is Some),
        (hint_descriptor_of(p) & ladspa_h::HINT_BOUNDED_ABOVE != 0) == (p.upper_bound is Some),
        hint_descriptor_of(p) & ladspa_h::HINT_CONTROL_MASK == (match p.hint {
            Some(h) => h.spec_bits(),
            None => 0i32,
        }),
        hint_descriptor_of(p) & ladspa_h::HINT_DEFAULT_MASK == (match p.default {
            Some(d) => d.spec_code(),
            None => 0i32,
        }),
{
    let h: i32 = match p.hint {
        Some(x) => x.spec_bits(),
        None => 0i32,
    };
    let d: i32 = match p.default {
        Some(x) => x.spec_code(),
        None => 0i32,
    };
    let l: i32 = if p.lower_bound is Some { 1i32 } else { 0i32 };
    let u: i32 = if p.upper_bound is Some { 2i32 } else { 0i32 };
    assert(0i32 & !0x3Ci32 == 0) by (bit_vector);
    assert(d & !0x3C0i32 == 0) by {
        assert(0i32 & !0x3C0i32 == 0 && 0x40i32 & !0x3C0i32 == 0 && 0x80i32 & !0x3C0i32 == 0
            && 0xC0i32 & !0x3C0i32 == 0 && 0x100i32 & !0x3C0i32 == 0 && 0x140i32 & !0x3C0i32 == 0
            && 0x200i32 & !0x3C0i32 == 0 && 0x240i32 & !0x3C0i32 == 0 && 0x280i32 & !0x3C0i32 == 0
            && 0x2C0i32 & !0x3C0i32 == 0) by (bit_vector);
    }
    assert(h & !0x3Ci32 == 0);
    assert(hint_descriptor_of(p) == h | d | l | u);
    assert({
        &&& ((h | d | l | u) & 1 != 0) == (l == 1)
        &&& ((h | d | l | u) & 2 != 0) == (u == 2)
        &&& (h | d | l | u) & 0x3C == h
        &&& (h | d | l | u) & 0x3C0 == d
    }) by (bit_vector)
        requires
            h & !0x3Ci32 == 0,
            d & !0x3C0i32 == 0,
            l == 0 || l == 1,
            u == 0 || u == 2,
    ;
}

/// A port's range hint carries the port's own bounds, each in its own
/// field: a bound the port has is passed on unchanged, and a missing bound
/// reads as `0` (the bit pattern of `0.0`).
pub proof fn lemma_range_hint_keeps_bounds(p: Port)
    ensures
        p.lower_bound matches Some(b) ==> range_hint_of(p).lower_bound == b,
        p.upper_bound matches Some(b) ==> range_hint_of(p).upper_bound == b,
        p.lower_bound is None ==> range_hint_of(p).lower_bound == 0,
        p.upper_bound is None ==> range_hint_of(p).upper_bound == 0,
        range_hint_of(p).hint_descriptor == hint_descriptor_of(p),
{
}

/// The descriptor built for a plugin carries, for each port, that port's own
/// bounds in the range hint at the same position.
pub proof fn lemma_descriptor_keeps_bounds(d: Descriptor, plugin: PluginDescriptor, i: int)
    requires
        d.describes(plugin),
        0 <= i < plugin.ports@.len(),
    ensures
        plugin.ports@[i].lower_bound matches Some(b) ==> d.port_range_hints@[i].lower_bound == b,
        plugin.ports@[i].upper_bound matches Some(b) ==> d.port_range_hints@[i].upper_bound == b,
        plugin.ports@[i].lower_bound is None ==> d.port_range_hints@[i].lower_bound == 0,
        plugin.ports@[i].upper_bound is None ==> d.port_range_hints@[i].upper_bound == 0,
{
    lemma_range_hint_keeps_bounds(plugin.ports@[i]);
}

/// The descriptor of a plugin as the host reads it, with the plain values
/// that the C record points to.
#[derive(Clone, Debug)]
pub struct Descriptor {
    pub unique_id: u64,
    pub label: String,
    pub properties: ladspa_h::Properties,
    pub name: String,
    pub maker: String,
    pub copyright: String,
    pub port_count: u64,
    pub port_descriptors: Vec<ladspa_h::PortDescriptor>,
    pub port_names: Vec<String>,
    pub port_range_hints: Vec<ladspa_h::PortRangeHint>,
}

impl Descriptor {
    /// The three port arrays each hold one entry per port.
    pub open spec fn wf(&self) -> bool {
        &&& self.port_descriptors@.len() == self.port_count
        &&& self.port_names@.len() == self.port_count
        &&& self.port_range_hints@.len() == self.port_count
    }

    /// This descriptor describes `plugin`: the same id, label, name, maker,
    /// copyright and property bits, and for each port in order its kind
    /// code, its name and its range hint.
    pub open spec fn describes(&self, plugin: PluginDescriptor) -> bool {
        &&& self.unique_id == plugin.unique_id
        &&& self.label@ == plugin.label@
        &&& self.properties == plugin.properties.spec_bits()
        &&& self.name@ == plugin.name@
        &&& self.maker@ == plugin.maker@
        &&& self.copyright@ == plugin.copyright@
        &&& self.port_count == plugin.ports@.len()
        &&& self.port_descriptors@ == plugin.ports@.map_values(|p: Port| p.desc.spec_code())
        &&& self.port_names@.len() == plugin.ports@.len()
        &&& forall|i: int|
            0 <= i < plugin.ports@.len() ==> #[trigger] self.port_names@[i]@ == plugin.ports@[i].name@
        &&& self.port_range_hints@ == plugin.ports@.map_values(|p: Port| range_hint_of(p))
    }

    /// Builds the descriptor that a host is handed for `plugin`.
    pub fn from_plugin(plugin: &PluginDescriptor) -> (d: Descriptor)
        ensures
            d.describes(*plugin),
            d.wf(),
    {
        let n = plugin.ports.len();
        let mut port_descriptors: Vec<ladspa_h::PortDescriptor> = Vec::new();
        let mut port_names: Vec<String> = Vec::new();
        let mut port_range_hints: Vec<ladspa_h::PortRangeHint> = Vec::new();
        let mut i: usize = 0;
        while i < n
            invariant
                n == plugin.ports@.len(),
                i <= n,
                port_descriptors@ == plugin.ports@.take(i as int).map_values(
                    |p: Port| p.desc.spec_code(),
                ),
                port_names@.len() == i,
                forall|j: int| 0 <= j < i ==> #[trigger] port_names@[j]@ == plugin.ports@[j].name@,
                port_range_hints@ == plugin.ports@.take(i as int).map_values(
                    |p: Port| range_hint_of(p),
                ),
            decreases n - i,
        {
            let port = &plugin.ports[i];
            port_descriptors.push(port.desc.code());
            port_names.push(port.name.clone());
            port_range_hints.push(port_range_hint(port));
            assert(plugin.ports@.take(i + 1) =~= plugin.ports@.take(i as int).push(plugin.ports@[i as int]));
            i = i + 1;
        }
        assert(plugin.ports@.take(n as int) =~= plugin.ports@);
        Descriptor {
            unique_id: plugin.unique_id,
            label: plugin.label.clone(),
            properties: plugin.properties.bits(),
            name: plugin.name.clone(),
            maker: plugin.maker.clone(),
            copyright: plugin.copyright.clone(),
            port_count: n as u64,
            port_descriptors,
            port_names,
            port_range_hints,
        }
    }
}

// ---------------------------------------------------------------------------
// The table of descriptors handed out
// ---------------------------------------------------------------------------

/// What a lookup of `index` in a table gives back: the descriptor stored for
/// that index, if one was.
pub open spec fn served<T>(table: Map<u64, T>, index: u64) -> Option<T> {
    if table.contains_key(index) {
        Some(table[index])
    } else {
        None
    }
}

/// The descriptors handed out so far, each under the index it was made for.
pub struct DescriptorTable<T> {
    by_index: HashMap<u64, T>,
    indices: Vec<u64>,
}

impl<T> View for DescriptorTable<T> {
    type V = Map<u64, T>;

    closed spec fn view(&self) -> Map<u64, T> {
        self.by_index@
    }
}

impl<T: Copy> DescriptorTable<T> {
    /// The indices that have a descriptor, in the order their descriptors
    /// were first stored.
    pub closed spec fn order(&self) -> Seq<u64> {
        self.indices@
    }

    /// The stored indices are listed once each, and are exactly the indices
    /// with a descriptor.
    pub closed spec fn wf(&self) -> bool {
        &&& self.indices@.no_duplicates()
        &&& self.indices@.to_set() == self.by_index@.dom()
    }

    /// An empty table.
    pub fn new() -> (t: Self)
        ensures
            t.wf(),
            t@ == Map::<u64, T>::empty(),
            t.order() == Seq::<u64>::empty(),
    {
        let t = DescriptorTable { by_index: HashMap::new(), indices: Vec::new() };
        assert(t.indices@.to_set() =~= Set::<u64>::empty());
        t
    }

    /// The number of descriptors in the table.
    pub fn len(&self) -> (n: usize)
        requires
            self.wf(),
        ensures
            n == self@.len(),
    {
        proof {
            self.indices@.unique_seq_to_set();
        }
        self.indices.len()
    }

    /// The indices that have a descriptor, each once, in the order their
    /// descriptors were first stored.
    pub fn indices(&self) -> (r: Vec<u64>)
        requires
            self.wf(),
        ensures
            r@ == self.order(),
            r@.no_duplicates(),
            r@.to_set() == self@.dom(),
    {
        let mut r: Vec<u64> = Vec::new();
        let mut i: usize = 0;
        while i < self.indices.len()
            invariant
                i <= self.indices@.len(),
                r@ == self.indices@.take(i as int),
            decreases self.indices@.len() - i,
        {
            r.push(self.indices[i]);
            i = i + 1;
            assert(r@ =~= self.indices@.take(i as int));
        }
        assert(self.indices@.take(i as int) =~= self.indices@);
        r
    }

    /// The descriptor stored for `index`, if there is one.
    pub fn cached(&self, index: u64) -> (r: Option<T>)
        ensures
            r == served(self@, index),
    {
        broadcast use vstd::std_specs::hash::group_hash_axioms;

        match self.by_index.get(&index) {
            Some(d) => Some(*d),
            None => None,
        }
    }

    /// Stores the descriptor made for `index`; a descriptor stored earlier for
    /// that index is replaced.
    pub fn store(&mut self, index: u64, entry: T)
        requires
            old(self).wf(),
        ensures
            final(self).wf(),
            final(self)@ == old(self)@.insert(index, entry),
            final(self).order() == (if old(self)@.contains_key(index) {
                old(self).order()
            } else {
                old(self).order().push(index)
            }),
    {
        broadcast use vstd::std_specs::hash::group_hash_axioms;

        let ghost old_indices = self.indices@;
        let known = self.by_index.contains_key(&index);
        assert(known == old(self)@.contains_key(index));
        self.by_index.insert(index, entry);
        if !known {
            proof {
                assert(!old_indices.to_set().contains(index));
            }
            self.indices.push(index);
            proof {
                assert forall|x: u64| self.indices@.contains(x) <==> (old_indices.contains(x) || x == index) by {
                    if old_indices.contains(x) {
                        let j = choose|j: int| 0 <= j < old_indices.len() && old_indices[j] == x;
                        assert(self.indices@[j] == x);
                    }
                    if x == index {
                        assert(self.indices@[old_indices.len() as int] == x);
                    }
                }
            }
        }
        proof {
            assert forall|x: u64| self.indices@.to_set().contains(x) <==> self.by_index@.dom().contains(x) by {
                assert(old_indices.to_set().contains(x) <==> old(self)@.dom().contains(x));
            }
            assert(self.indices@.to_set() =~= self.by_index@.dom());
        }
    }

    /// Settles a lookup of `index` that missed: the descriptor the plugin
    /// made for it, if any, is stored under `index` and is the answer; when
    /// the plugin made none the table is left as it was and the answer is
    /// nothing.
    pub fn settle(&mut self, index: u64, made: Option<T>) -> (answer: Option<T>)
        requires
            old(self).wf(),
        ensures
            final(self).wf(),
            answer == made,
            final(self)@ == (match made {
                Some(d) => old(self)@.insert(index, d),
                None => old(self)@,
            }),
            final(self).order() == (if made is Some && !old(self)@.contains_key(index) {
                old(self).order().push(index)
            } else {
                old(self).order()
            }),
    {
        match made {
            Some(d) => {
                self.store(index, d);
                Some(d)
            },
            None => None,
        }
    }
}

/// A descriptor stored for an index is what every later lookup of that index
/// gives back.
pub proof fn lemma_stored_descriptor_is_served<T>(table: Map<u64, T>, index: u64, entry: T)
    ensures
        served(table.insert(index, entry), index) == Some(entry),
{
}

/// Storing a descriptor for one index never changes what a lookup of another
/// index gives back.
pub proof fn lemma_other_indices_unchanged<T>(table: Map<u64, T>, index: u64, entry: T, other: u64)
    requires
        other != index,
    ensures
        served(table.insert(index, entry), other) == served(table, other),
{
}

// ---------------------------------------------------------------------------
// The ports of a plugin instance
// ---------------------------------------------------------------------------

/// The data of a port of kind `kind` freshly connected to `location`: audio
/// ports start with no samples.
pub open spec fn fresh_data(kind: plugin::PortDescriptor, location: usize) -> Option<PortData> {
    match kind {
        plugin::PortDescriptor::AudioInput => Some(PortData::AudioInput { location, len: 0 }),
        plugin::PortDescriptor::AudioOutput => Some(PortData::AudioOutput { location, len: 0 }),
        plugin::PortDescriptor::ControlInput => Some(PortData::ControlInput { location }),
        plugin::PortDescriptor::ControlOutput => Some(PortData::ControlOutput { location }),
        plugin::PortDescriptor::Invalid => None,
    }
}

/// The data is of the kind that `kind` names.
pub open spec fn data_matches(kind: plugin::PortDescriptor, data: PortData) -> bool {
    match data {
        PortData::AudioInput { .. } => kind is AudioInput,
        PortData::AudioOutput { .. } => kind is AudioOutput,
        PortData::ControlInput { .. } => kind is ControlInput,
        PortData::ControlOutput { .. } => kind is ControlOutput,
    }
}

/// A connection after a run over `sample_count` samples: an audio port then
/// covers that many samples at the same place; a control port is unchanged.
pub open spec fn resized(c: PortConnection, sample_count: usize) -> PortConnection {
    match c.data {
        PortData::AudioInput { location, .. } => PortConnection {
            port: c.port,
            data: PortData::AudioInput { location, len: sample_count },
        },
        PortData::AudioOutput { location, .. } => PortConnection {
            port: c.port,
            data: PortData::AudioOutput { location, len: sample_count },
        },
        _ => c,
    }
}

/// The address a port's data lives at.
pub open spec fn data_location(d: PortData) -> usize {
    match d {
        PortData::AudioInput { location, .. } => location,
        PortData::AudioOutput { location, .. } => location,
        PortData::ControlInput { location } => location,
        PortData::ControlOutput { location } => location,
    }
}

/// The number of samples an audio port covers; `None` for a control port.
pub open spec fn audio_len(d: PortData) -> Option<usize> {
    match d {
        PortData::AudioInput { len, .. } => Some(len),
        PortData::AudioOutput { len, .. } => Some(len),
        _ => None,
    }
}

/// Both data are of the same kind of port.
pub open spec fn same_kind(a: PortData, b: PortData) -> bool {
    ||| (a is AudioInput && b is AudioInput)
    ||| (a is AudioOutput && b is AudioOutput)
    ||| (a is ControlInput && b is ControlInput)
    ||| (a is ControlOutput && b is ControlOutput)
}

/// A run over `n` samples keeps each connection's port, kind and location;
/// an audio connection then covers exactly `n` samples whatever it covered
/// before, and a control connection is left as it was.  So a run's result
/// does not depend on earlier runs: running over `m` and then `n` samples
/// is the same as running over `n`.
pub proof fn lemma_run_covers_sample_count(c: PortConnection, m: usize, n: usize)
    ensures
        resized(c, n).port == c.port,
        data_location(resized(c, n).data) == data_location(c.data),
        same_kind(resized(c, n).data, c.data),
        audio_len(c.data) is Some ==> audio_len(resized(c, n).data) == Some(n),
        audio_len(c.data) is None ==> resized(c, n) == c,
        resized(resized(c, m), n) == resized(c, n),
{
}

/// After a run over `n` samples every connected audio port covers exactly
/// `n` samples at the place it was connected to.
pub proof fn lemma_run_sets_audio_lengths(before: &Handle, after: &Handle, n: usize)
    requires
        after.connections() == before.connections().map_values(
            |c: PortConnection| resized(c, n),
        ),
    ensures
        after.connections().dom() == before.connections().dom(),
        forall|k: usize| #[trigger] after.connections().contains_key(k) ==> {
            &&& data_location(after.connections()[k].data) == data_location(before.connections()[k].data)
            &&& same_kind(after.connections()[k].data, before.connections()[k].data)
            &&& (audio_len(before.connections()[k].data) is Some ==> audio_len(after.connections()[k].data) == Some(n))
        },
{
    assert(after.connections().dom() =~= before.connections().dom());
}

/// A freshly connected port of any real kind holds exactly the location the
/// host gave, its data is of the port's kind, and an audio port starts out
/// covering no samples.
pub proof fn lemma_fresh_data_keeps_location(kind: plugin::PortDescriptor, location: usize)
    requires
        !(kind is Invalid),
    ensures
        fresh_data(kind, location) is Some,
        data_location(fresh_data(kind, location)->Some_0) == location,
        data_matches(kind, fresh_data(kind, location)->Some_0),
        kind.is_audio() ==> audio_len(fresh_data(kind, location)->Some_0) == Some(0usize),
        kind.is_control() ==> audio_len(fresh_data(kind, location)->Some_0) is None,
{
}

/// Connecting port `port_num` to `location` records that very location for
/// that port, with data of the port's kind.
pub proof fn lemma_connect_records_location(before: &Handle, after: &Handle, port_num: usize, location: usize)
    requires
        port_num < before.descs().len(),
        !(before.descs()[port_num as int] is Invalid),
        after.connections() == before.connections().insert(
            port_num,
            PortConnection {
                port: port_num,
                data: fresh_data(before.descs()[port_num as int], location)->Some_0,
            },
        ),
    ensures
        after.connections().contains_key(port_num),
        after.connections()[port_num].port == port_num,
        data_location(after.connections()[port_num].data) == location,
        data_matches(before.descs()[port_num as int], after.connections()[port_num].data),
{
    lemma_fresh_data_keeps_location(before.descs()[port_num as int], location);
}

/// The port numbers `0, 1, ..., n - 1`.
pub open spec fn all_port_numbers(n: nat) -> Seq<usize> {
    Seq::new(n, |i: int| i as usize)
}

/// The connection of a port to `location`.
fn fresh_connection(kind: plugin::PortDescriptor, port: usize, location: usize) -> (c: PortConnection)
    requires
        !(kind is Invalid),
    ensures
        Some(c.data) == fresh_data(kind, location),
        c.port == port,
{
    let data = match kind {
        plugin::PortDescriptor::AudioInput => PortData::AudioInput { location, len: 0 },
        plugin::PortDescriptor::AudioOutput => PortData::AudioOutput { location, len: 0 },
        plugin::PortDescriptor::ControlInput => PortData::ControlInput { location },
        _ => PortData::ControlOutput { location },
    };
    PortConnection { port, data }
}

/// The connection after a run over `sample_count` samples.
fn resize(c: PortConnection, sample_count: usize) -> (r: PortConnection)
    ensures
        r == resized(c, sample_count),
{
    match c.data {
        PortData::AudioInput { location, .. } => PortConnection {
            port: c.port,
            data: PortData::AudioInput { location, len: sample_count },
        },
        PortData::AudioOutput { location, .. } => PortConnection {
            port: c.port,
            data: PortData::AudioOutput { location, len: sample_count },
        },
        _ => c,
    }
}

/// The port state of one plugin instance: the kinds of its ports, the
/// connections made so far, and the ports that a run hands to the plugin.
pub struct Handle {
    port_descs: Vec<plugin::PortDescriptor>,
    port_map: VecMap<PortConnection>,
    ports: Vec<usize>,
}

impl Handle {
    /// The kinds of the plugin's ports, in port order.
    pub closed spec fn descs(&self) -> Seq<plugin::PortDescriptor> {
        self.port_descs@
    }

    /// The connections made so far, by port number.
    pub closed spec fn connections(&self) -> Map<usize, PortConnection> {
        port_map_contents(self.port_map)
    }

    /// Every port has been connected.
    pub open spec fn all_connected(&self) -> bool {
        forall|i: usize| i < self.descs().len() ==> #[trigger] self.connections().contains_key(i)
    }

    /// What a run hands to the plugin: the connection of every port in port
    /// order once all ports are connected, and nothing before.
    pub open spec fn handed_to_plugin(&self) -> Seq<PortConnection> {
        if self.all_connected() {
            Seq::new(self.descs().len(), |i: int| self.connections()[i as usize])
        } else {
            Seq::empty()
        }
    }

    /// Every connection is under its own port number, which is a port of the
    /// plugin, and its data is of that port's kind; the ports handed to the
    /// plugin are all of them in order once all are connected, none before.
    pub closed spec fn wf(&self) -> bool {
        &&& self.descs().len() <= usize::MAX
        &&& self.connections().dom().finite()
        &&& forall|k: usize| #[trigger]
            self.connections().contains_key(k) ==> {
                &&& k < self.descs().len()
                &&& self.connections()[k].port == k
                &&& data_matches(self.descs()[k as int], self.connections()[k].data)
            }
        &&& self.ports@ == (if self.all_connected() {
            all_port_numbers(self.descs().len())
        } else {
            Seq::empty()
        })
    }

    /// The port state of a new instance of a plugin whose ports have the
    /// kinds `port_descs`: nothing is connected yet.
    pub fn new(port_descs: Vec<plugin::PortDescriptor>) -> (h: Handle)
        ensures
            h.wf(),
            h.descs() == port_descs@,
            h.connections() == Map::<usize, PortConnection>::empty(),
    {
        let n = port_descs.len();
        let h = Handle { port_descs, port_map: port_map_new(), ports: Vec::new() };
        proof {
            assert(h.descs().len() == n);
            if h.all_connected() {
                if h.descs().len() > 0 {
                    assert(h.connections().contains_key(0usize));
                }
                assert(all_port_numbers(h.descs().len()) =~= Seq::empty());
            }
        }
        h
    }

    /// The number of ports of the plugin.
    pub fn port_count(&self) -> (n: usize)
        ensures
            n == self.descs().len(),
    {
        self.port_descs.len()
    }

    /// Connects port `port_num` to the data at `data_location`, replacing an
    /// earlier connection of that port.  Once every port is connected, runs
    /// hand all of them to the plugin in port order.
    pub fn connect_port(&mut self, port_num: usize, data_location: usize)
        requires
            old(self).wf(),
            port_num < old(self).descs().len(),
            !(old(self).descs()[port_num as int] is Invalid),
        ensures
            final(self).wf(),
            final(self).descs() == old(self).descs(),
            final(self).connections() == old(self).connections().insert(
                port_num,
                PortConnection {
                    port: port_num,
                    data: fresh_data(old(self).descs()[port_num as int], data_location)->Some_0,
                },
            ),
    {
        let kind = self.port_descs[port_num];
        let conn = fresh_connection(kind, port_num, data_location);
        let ghost before = self.connections();
        port_map_insert(&mut self.port_map, port_num, conn);
        proof {
            lemma_connected_count(self.connections().dom(), self.descs().len());
            lemma_connected_count(before.dom(), self.descs().len());
        }
        if port_map_len(&self.port_map) == self.port_descs.len() {
            let keys = port_map_keys(&self.port_map);
            proof {
                lemma_sorted_keys_are_port_numbers(keys@, self.connections().dom(), self.descs().len());
            }
            self.ports = keys;
        } else {
            proof {
                assert(self.connections().dom().len() >= before.dom().len()) by {
                    vstd::set_lib::lemma_len_subset(before.dom(), self.connections().dom());
                }
            }
        }
    }

    /// Prepares a run over `sample_count` samples and gives what the plugin
    /// is handed: every audio port now covers `sample_count` samples, and the
    /// result is the connection of every port in port order once all ports
    /// are connected, nothing before.
    pub fn run(&mut self, sample_count: usize) -> (handed: Vec<PortConnection>)
        requires
            old(self).wf(),
        ensures
            final(self).wf(),
            final(self).descs() == old(self).descs(),
            final(self).connections() == old(self).connections().map_values(
                |c: PortConnection| resized(c, sample_count),
            ),
            handed@ == final(self).handed_to_plugin(),
    {
        let ghost before = self.connections();
        let keys = port_map_keys(&self.port_map);
        let mut j: usize = 0;
        while j < keys.len()
            invariant
                self.wf(),
                self.descs() == old(self).descs(),
                before == old(self).connections(),
                self.connections().dom() == before.dom(),
                forall|a: int, b: int| 0 <= a < b < keys@.len() ==> keys@[a] < keys@[b],
                forall|k: usize| before.contains_key(k) <==> keys@.contains(k),
                j <= keys@.len(),
                forall|a: int| 0 <= a < j ==> #[trigger] self.connections()[keys@[a]] == resized(
                    before[keys@[a]],
                    sample_count,
                ),
                forall|a: int| j <= a < keys@.len() ==> #[trigger] self.connections()[keys@[a]]
                    == before[keys@[a]],
            decreases keys@.len() - j,
        {
            let k = keys[j];
            assert(keys@.contains(k));
            let c = port_map_get(&self.port_map, k).unwrap();
            let ghost mid = self.connections();
            let ghost mid_all = self.all_connected();
            port_map_insert(&mut self.port_map, k, resize(c, sample_count));
            proof {
                assert(self.connections().dom() =~= mid.dom());
                assert(self.all_connected() == mid_all);
                assert forall|a: int| 0 <= a < keys@.len() && a != j implies #[trigger] keys@[a] != k by {
                }
            }
            j = j + 1;
        }
        proof {
            assert forall|k: usize| #[trigger] before.contains_key(k) implies self.connections()[k]
                == resized(before[k], sample_count) by {
                assert(keys@.contains(k));
                let a = choose|a: int| 0 <= a < keys@.len() && keys@[a] == k;
            }
            assert(self.connections() =~= before.map_values(
                |c: PortConnection| resized(c, sample_count),
            ));
        }
        let mut handed: Vec<PortConnection> = Vec::new();
        let mut i: usize = 0;
        while i < self.ports.len()
            invariant
                self.wf(),
                i <= self.ports@.len(),
                handed@.len() == i,
                forall|a: int| 0 <= a < i ==> #[trigger] handed@[a] == self.connections()[self.ports@[a]],
            decreases self.ports@.len() - i,
        {
            let k = self.ports[i];
            let c = port_map_get(&self.port_map, k).unwrap();
            handed.push(c);
            i = i + 1;
        }
        assert(handed@ =~= self.handed_to_plugin());
        handed
    }
}

/// With every connected port number below `n`, all of `0..n` are connected
/// exactly when `n` ports are.
proof fn lemma_connected_count(dom: Set<usize>, n: nat)
    requires
        n <= usize::MAX,
        dom.finite(),
        forall|k: usize| #[trigger] dom.contains(k) ==> k < n,
    ensures
        (forall|i: usize| i < n ==> #[trigger] dom.contains(i)) <==> dom.len() == n,
        dom.len() <= n,
{
    let r = all_port_numbers(n);
    assert forall|a: int, b: int| 0 <= a < r.len() && 0 <= b < r.len() && a != b implies r[a] != r[b] by {
    }
    assert(r.no_duplicates());
    r.unique_seq_to_set();
    assert forall|k: usize| dom.contains(k) implies r.to_set().contains(k) by {
        assert(r[k as int] == k);
    }
    vstd::set_lib::lemma_len_subset(dom, r.to_set());
    if forall|i: usize| i < n ==> #[trigger] dom.contains(i) {
        assert(dom =~= r.to_set());
    }
    if dom.len() == n {
        vstd::set_lib::lemma_subset_equality(dom, r.to_set());
        assert forall|i: usize| i < n implies #[trigger] dom.contains(i) by {
            assert(r[i as int] == i);
        }
    }
}

/// Consecutive entries of a strictly increasing sequence of port numbers are
/// at least as far apart as their positions.
proof fn lemma_increasing_gap(s: Seq<usize>, i: int, j: int)
    requires
        forall|a: int, b: int| 0 <= a < b < s.len() ==> s[a] < s[b],
        0 <= i <= j < s.len(),
    ensures
        s[j] - s[i] >= j - i,
    decreases j - i,
{
    if i < j {
        lemma_increasing_gap(s, i, j - 1);
    }
}

/// The keys of a map holding every port number below `n`, listed once each
/// in ascending order, are `0, 1, ..., n - 1`.
proof fn lemma_sorted_keys_are_port_numbers(s: Seq<usize>, dom: Set<usize>, n: nat)
    requires
        forall|a: int, b: int| 0 <= a < b < s.len() ==> s[a] < s[b],
        forall|k: usize| dom.contains(k) <==> s.contains(k),
        forall|k: usize| #[trigger] dom.contains(k) ==> k < n,
        dom.finite(),
        dom.len() == n,
    ensures
        s == all_port_numbers(n),
{
    assert(s.no_duplicates());
    s.unique_seq_to_set();
    assert(s.to_set() =~= dom);
    assert forall|i: int| 0 <= i < s.len() implies s[i] == i by {
        assert(s.contains(s[i]));
        lemma_increasing_gap(s, 0, i);
        lemma_increasing_gap(s, i, s.len() - 1);
        assert(s.contains(s[s.len() - 1]));
    }
    assert(s =~= all_port_numbers(n));
}

/// Once every port is connected, a run hands the plugin the connection of
/// port `i` at position `i`, for every port; before that it hands nothing.
pub proof fn lemma_ports_handed_in_order(h: &Handle)
    requires
        h.wf(),
    ensures
        h.all_connected() ==> {
            &&& h.handed_to_plugin().len() == h.descs().len()
            &&& forall|i: int| 0 <= i < h.descs().len() ==> {
                &&& #[trigger] h.handed_to_plugin()[i] == h.connections()[i as usize]
                &&& h.handed_to_plugin()[i].port == i
            }
        },
        !h.all_connected() ==> h.handed_to_plugin().len() == 0,
{
    if h.all_connected() {
        assert forall|i: int| 0 <= i < h.descs().len() implies h.handed_to_plugin()[i].port == i by {
            assert(h.connections().contains_key(i as usize));
        }
    }
}

/// In a valid port state every connection is under its own port number, that
/// number is a port of the plugin, and the connection's data is of that
/// port's kind.
pub proof fn lemma_connections_match_ports(h: &Handle)
    requires
        h.wf(),
    ensures
        h.connections().dom().finite(),
        forall|k: usize| #[trigger] h.connections().contains_key(k) ==> {
            &&& k < h.descs().len()
            &&& h.connections()[k].port == k
            &&& data_matches(h.descs()[k as int], h.connections()[k].data)
        },
{
}

/// Connecting a port never disconnects another: every port connected
/// before stays connected, with its connection unless it is the port just
/// connected, so once all ports are connected they stay so.
pub proof fn lemma_connecting_keeps_connections(before: &Handle, after: &Handle, port_num: usize, c: PortConnection)
    requires
        after.descs() == before.descs(),
        after.connections() == before.connections().insert(port_num, c),
    ensures
        forall|k: usize| #[trigger] before.connections().contains_key(k) ==> {
            &&& after.connections().contains_key(k)
            &&& k != port_num ==> after.connections()[k] == before.connections()[k]
        },
        before.all_connected() ==> after.all_connected(),
{
}

} // verus!
