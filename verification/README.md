# cef_unity

A browser for a game engine: a server process runs the browser engine, and a client library, loaded
by the game engine, shows its pages. Commands and answers pass through a channel, pixels and audio
through shared memory, and textures as handles of the graphics system.

- `src/` holds what both sides decide and compute, as a library verified with Verus: the layout of
  the shared memory, the wire formats, the command line, the schedule of frames, the rings of audio,
  and what each command, event and answer leads to.
- `tests/` runs the library on concrete values.
- `app/` is the ordinary code around it: processes, sockets, threads, shared memory, the graphics
  and audio interfaces of the systems, and the browser engine.
- `extras/caret_tracker.js` is the script that reports where a page's text cursor stands.

Two functions of other libraries are called from `src/` and believed by their contracts:
`std::str::from_utf8` (in `text.rs`) and `image::RgbaImage::from_raw` (in `pixels.rs`).

Floating-point work (blending audio frames, steering the playback rate, volumes, ratios in reports)
is not verified; it stands in `app/`, next to the calls into the library that decide everything else.
