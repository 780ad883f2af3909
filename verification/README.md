# map_render_state

The decisions of a tile map renderer, as a Verus library.

- `src/` is the verified library. It decides how the GPU is set up (`setup`,
  `device`, `formats`), what a resize, suspension or resumption changes (`render_state`,
  `surface`), which tile level is visible at a zoom (`zoom`), what is fetched
  and uploaded before a frame and in which order (`upload`, `style`,
  `globals`), and which commands a frame consists of (`frame`). What holds of
  these parts together is proved in `laws`.
- `app/` owns the window, the device and the buffers, and performs the plans.
  Camera, workers and buffer pool come in through the traits in
  `app/collaborators.rs`.
- `tests/` runs the library on concrete values, against `wgpu` and `bytemuck`.

The library holds no floating point numbers. A zoom and the components of a
color are the bit patterns of such numbers.
