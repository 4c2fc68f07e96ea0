# esperto_wiimote

A Wii Remote input mapper: it finds the remote's three kernel input devices
(buttons, IR camera, accelerometer), tracks the sensor bar to drive a
pointer, routes buttons and pointer through esperto combos, and writes the
results to up to four virtual output devices.

- `src/` is the verified library (Verus): the configuration model and its
  checks, the capabilities of the output devices, the synchronisation of raw
  events into samples and frames, the routing of inputs through the esperto
  combo engine into output device events, the matching of a remote's devices, the integer state of the
  IR tracker (dot partition, tracking state, glitch filter) and the
  connection count. `src/laws.rs` holds the properties that relate several
  functions. The router hands every input to esperto's combo handler, as
  the program always did; it keeps a copy of the handler's modifier group
  counts so that a release which would take a count below zero is refused
  (`Router::can_route`, `Router::try_route_key`) instead of reaching the
  handler.
- `app/` is the program around it: device discovery and I/O, the async
  event loop, the floating point geometry of the
  tracker and the accelerometer calibration wizard.
- `tests/` exercise the library on concrete values.
