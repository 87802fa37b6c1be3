# vst3_host

The host side of VST3 audio-plugin hosting, with its logic verified by Verus.

A VST3 plugin talks to its host through COM objects the host hands it: a
state stream, parameter queues, event lists, data-exchange queues, a host
application identity and a set of callback handlers. The host in turn drives
the plugin through a lifecycle (`setupProcessing`, `setActive`,
`setProcessing`, `process`) and decides what each returned code means.

- `src/` is the verified library: the stream, queue, event-list and
  data-exchange state with their contracts, the MIDI/VST3 event conversions,
  transport and process-setup encoding, bundle resolution and the lifecycle
  decisions. Floating-point quantities are carried as their IEEE-754 bit
  patterns.
- `app/` holds what surrounds it: the COM objects (through the `vst3` crate)
  that turn raw pointers into plain values and back, dynamic loading with
  `libloading`, file-system probes, `f32`/`f64` audio buffers, and the error
  type with `Display`.
- `tests/` exercises the library on concrete values.
