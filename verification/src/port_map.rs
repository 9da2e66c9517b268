//! The map from port numbers to connections, kept in a `vec_map::VecMap`.
use vstd::prelude::*;

use crate::plugin::PortConnection;
use vec_map::VecMap;

verus! {

#[verifier::external_type_specification]
#[verifier::external_body]
#[verifier::reject_recursive_types(V)]
pub struct ExVecMap<V>(VecMap<V>);

/// The connections that a port map holds, by port number.
pub uninterp spec fn port_map_contents(m: VecMap<PortConnection>) -> Map<usize, PortConnection>;

/// `VecMap::new`: a map that holds nothing.
#[verifier::external_body]
pub(crate) fn port_map_new() -> (map: VecMap<PortConnection>)
    ensures
        port_map_contents(map) =~= Map::empty(),
{
    VecMap::new()
}

/// `VecMap::insert`: `value` is stored under `key`, replacing what was there,
/// which is returned.  The source grows its vector to `key + 1` slots; that
/// this allocation succeeds is not stated.
#[verifier::external_body]
pub(crate) fn port_map_insert(m: &mut VecMap<PortConnection>, key: usize, value: PortConnection) -> (was: Option<PortConnection>)
    requires
        key < usize::MAX,
    ensures
        port_map_contents(*final(m)) == port_map_contents(*old(m)).insert(key, value),
        was == (if port_map_contents(*old(m)).contains_key(key) {
            Some(port_map_contents(*old(m))[key])
        } else {
            None
        }),
{
    m.insert(key, value)
}

/// `VecMap::len`: the number of keys that hold a value.
#[verifier::external_body]
pub(crate) fn port_map_len(m: &VecMap<PortConnection>) -> (n: usize)
    ensures
        n == port_map_contents(*m).len(),
{
    m.len()
}

/// `VecMap::get`: the value under `key`, if any, copied out.
#[verifier::external_body]
pub(crate) fn port_map_get(m: &VecMap<PortConnection>, key: usize) -> (r: Option<PortConnection>)
    ensures
        r == (if port_map_contents(*m).contains_key(key) {
            Some(port_map_contents(*m)[key])
        } else {
            None
        }),
{
    m.get(key).copied()
}

/// `VecMap::keys`, collected: every key that holds a value, once, in
/// ascending order.
#[verifier::external_body]
pub(crate) fn port_map_keys(m: &VecMap<PortConnection>) -> (keys: Vec<usize>)
    ensures
        forall|i: int, j: int| 0 <= i < j < keys@.len() ==> keys@[i] < keys@[j],
        forall|k: usize| port_map_contents(*m).contains_key(k) <==> keys@.contains(k),
{
    m.keys().collect()
}

} // verus!
