# ladspa

The host-facing side of a LADSPA plugin library, verified with Verus.

- `src/plugin.rs`: what a plugin says of itself (ports, kinds, hints,
  defaults, properties) and the `ladspa.h` codes of kinds and defaults.
- `src/ffi.rs`: the descriptor a host reads, built from a plugin's
  description; the table of descriptors handed out, keyed by the index each was made for; the port state of a plugin
  instance (connecting ports, preparing a run).
- `src/ffi/ladspa_h.rs`: the constants and the range-hint record of `ladspa.h`
  (float bounds held as their bit patterns).
- `src/port_map.rs`: the `vec_map::VecMap` of connections, behind trusted
  wrappers.
- `app/`: the exported C functions, raw pointers, C strings and calls into
  plugin code, around the library.
