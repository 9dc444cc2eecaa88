# render_wasm

Decoding of the renderer's shared-memory buffers and its render options,
with their contracts and proofs.

- `src/options.rs`: the render mode flags.
- `src/render_options.rs`: `RenderOptions`, reading and switching the mode
  flags, and the laws that switching a flag obeys.
- `src/shapes.rs`: shadow and stroke values, and little-endian decoding.
- `src/shadows.rs`: shadow entries (24 bytes each) and shadow buffers.
- `src/strokes.rs`: stroke entries (8-byte header and the encoded fill) and
  stroke buffers.

`f32` values (widths, blur, spread, offsets, device pixel ratio) are held by
their IEEE-754 bit patterns; `f32::from_bits` turns them back into floats.
