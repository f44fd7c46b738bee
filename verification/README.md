# prism

The rules of a real-time renderer, verified with Verus and kept apart from the graphics device that
carries them out.

- `src/` is the library. It holds scenes and their settings, the choice of detail in a hierarchy of
  meshlets, and the passes of a frame: their textures, buffers, layouts, uniforms and recorded
  commands, as plain values. Single-precision numbers are held as bit patterns (`scalar`); the library
  orders and packs them, and rounds whole numbers to them.
- `app/` is the host. It owns the device, computes with floating-point numbers, hands the library
  plain values, and carries out what it records. Shaders, cameras, and the passes that shade, fill the
  sky, draw outlines and map tones are brought by whoever uses the host.
- `tests/` runs the library.

What holds of the library as a whole is stated by its public proof functions, beside the code they
speak of. Two functions rest on calls that are not verified; each says so above its contract.
