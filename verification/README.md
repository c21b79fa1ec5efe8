# canvas_paint

The verified core of a bevy painting application.

- `src/` (Verus): the canvas's size and centre, the alternation between the two
  canvas textures, the search for a slider's bounds among the children of its
  slot, the camera's actions with the kinds of input they read and the input
  map that binds them, and the error type the systems report.
- `app/` (plain Rust): the bevy plugins and systems, the UI widgets, and the
  floating-point camera and slider arithmetic, calling the library for the
  decisions above.
