# kiss3d (verified core)

The window and 2D camera layer of a small 3D/2D graphics library, with the
parts that decide things written in Verus and proved against their
contracts.

- `src/` — the verified library:
  - `event`: keys, mouse buttons, actions and modifier sets;
  - `keyboard`: the native and web keyboard tables;
  - `input`: native input events turned into state updates and user events;
  - `canvas`: the window's state (held keys and buttons, surface size,
    sample count), its updates and the render targets they call for;
  - `surface`: the choice of a surface format and the handling of a frame
    that cannot be acquired;
  - `format`: the texture formats as the library's own values, and which of
    them store their pixels blue first;
  - `readback`: the layout of read-back buffers and their conversion into
    bottom-up RGB images;
  - `icon`: the pixel buffer of a window icon;
  - `camera`: the coordinate systems of the fixed 2D camera.
- `app/` — the code that talks to the windowing system (winit) and the GPU
  (wgpu), the 2D camera's floating-point projection, and the web listeners.
- `tests/` — tests of the library on concrete values.
