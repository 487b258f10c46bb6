# metal_hal

The rules by which a graphics backend drives Metal, verified with Verus.

- `src/` is the verified library. It works on plain values and on handles of any type.
  - `instance`, `adapter`: which windows can be drawn to, and in which order adapters are listed
  - `queue`, `fence`: the steps of submissions and presentations, and what the GPU has finished
  - `pipeline`, `stage`: what is kept for each shader stage, and the layout of binding tables
  - `resource`, `capabilities`: buffers, textures, and what a device can do
- `app/` holds the native handles: it reads from the device and carries out what the library
  decides.
- `tests/` runs the library on concrete values.
