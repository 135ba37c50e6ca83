# mls_mpm

A Moving Least Squares Material Point Method (MLS-MPM) simulator whose host-side
logic is verified with Verus.

- `src/` is the verified library: grid and particle buffers (`grid_buffer`,
  `particle_buffer`), grid node indexing (`grid_index`), the material registry
  (`material`), the plan of a simulation step (`step`) and the splitting of
  records into per-component buffers (`layout`). The boundary rule
  (`boundary`), the grid-clearing stage (`kernel`) and the node indexing and
  stencil of `grid_index` are host models of what the GPU kernels in `app/`
  compute; the kernels are written under CubeCL's `cube` attribute and carry
  their own copies, which these proofs do not cover.
- `app/` drives the GPU through CubeCL: buffer upload and download, the
  floating-point kernels, and the descriptors with their builders.
- `tests/` exercises the library on concrete values.
