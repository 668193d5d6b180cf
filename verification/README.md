# warmup_companion

The decisions behind a controller-driven keyboard for Windows: reading pads on the
desktop and on the sign-in screen, keeping the system's own keyboard away while it is
in use, laying out and drawing the keyboard and its overlays, and dictation. The
library is written in Verus: each function states in its contract what it returns or
changes, and the contracts are proved.

- `src/` is the library. It touches no device, file or clock: readings, times and the
  system's answers come in as values, and actions go out as values. The crate
  documentation in `src/lib.rs` lists the modules.
- `app/` is the program around it: windows, devices, files, sockets and sound, and the
  floating-point geometry of the drawing.
- `tests/` runs the library on concrete values.
- `extras/nimbus.hlsl` is the shader of the cloud that shows dictation.

Some facts are taken on trust, each stated above the item that uses it: what a PNG file
decodes to (`png`), that an SVG drawing has the size asked for (`resvg`), what a JSON
text holds under a key (`serde_json`), and four functions of the standard library on
texts and characters.
