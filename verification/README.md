# bouncing_balls

Two windows show the same kind of scene: balls bouncing in a playing field
above a status panel. The left window draws on the GPU through `pixels`,
the right one rasterises on the CPU into a `softbuffer` frame.

- `src/` is the library, verified with Verus: ball markers and colours
  (`marker`, `color`), the CPU frame rasteriser over a `ril` canvas
  (`canvas`, `scene`), the status line (`text`), the font-atlas layout
  (`atlas`), the mouse state of a render thread (`pointer`) and the window
  geometry (`layout`).
- `app/` is the program: windows and events (`winit`), the GPU pipeline
  (`pixels`/`wgpu`), the render threads, and the floating-point ball
  physics.
- `tests/` runs the library on concrete values.

The program reads `assets/shaders.wgsl` (the ball shader) and
`assets/font.ttf` (the caption font) at run time.
