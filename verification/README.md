# recamera

The reCamera SDK (Seeed reCamera, SG2002 SoC) as a Verus-verified library
with a thin device-facing crate around it.

- `src/` is the verified library: shared types and errors; the CVI camera
  pipeline as planned call sequences with a streaming-state machine; sensor
  probing; vendor library search order; device information parsing
  (`/proc/meminfo`, `/etc/os-release`, device-tree model); LED brightness
  text; model path validation and NPU call judgements; UART settings.
  Integer rendering/parsing and text trimming/splitting are implemented here
  and proved against this crate's own statements of what the corresponding
  standard-library methods do; those statements are checked against the
  standard library only by the tests.
- `app/` performs what cannot be verified: file and serial I/O, dynamic
  loading of the vendor libraries, the call loops that drive the planned
  sequences, serde/thiserror support, and the float-valued inference outputs.
- `tests/` runs the library on concrete inputs.
