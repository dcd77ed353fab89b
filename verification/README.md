# raybox

The logic of the RayBox demo renderer as a verified library: the retained
scene graph and its dirty tracking, the TodoMVC page and the GPU updates
each change of it calls for, the flat and physically lit scene decks, the
UI themes, frame packets and their compilation, the runner's key, redraw
and control-command decisions, hot-reload planning, and screenshot
encoding. Every function in `src/` carries a contract; Verus proves each one
except those of the five small wrappers around `std::str`, `std::path`,
`image` and `base64`, whose contracts are believed from the outside
crates' sources.

- `src/` — the library, verified with Verus.
- `tests/` — tests that run the library on concrete values.
- `app/` — the development program around the library: file watching,
  running builds and the shader compiler, and the saved session.

GPU work (wgpu), windowing (winit) and system monitoring stay outside the
library; the library decides, and its callers carry the decisions out.
