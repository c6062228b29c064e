# radiance_switch

The Nintendo Switch (libnx, EGL, GLES2) platform layer of the radiance engine,
with its logic verified by Verus.

- `src/` is the verified library: gamepad and imgui navigation input, the
  application loop's decisions, vertex layouts, shader program data and
  bindings, the shader build (its ordered GL steps, uniform lookups and
  failure outcomes, as a state machine, and likewise for the imgui
  program), materials and the images they are
  built from, render objects and targets, the shader cache, the per-draw GL
  state, frame bookkeeping, and the libc answers newlib lacks.
  The one outside call, image decoding, goes through `image` behind a trusted
  wrapper.
- `app/` is the unverified shell: the libnx, EGL and GLES2 calls, the
  floating-point parts (stick normalisation, lighting and projection
  matrices, scissor rectangles, shader uniform defaults), the imgui
  integration, the loops that perform each program build step the library
  hands out, the deletion of GL objects once nothing holds them, and the
  exported libc and `getrandom` hooks.
- `tests/` runs the library on concrete values.
