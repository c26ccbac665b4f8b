# particle_sim

The verified core of a 2D particle renderer that lights its scene with radiance
cascades on the GPU.

- `src/` is the library, verified with Verus. It plans what the GPU does and holds
  no floating point:
  - `options`: the renderer's settings and their defaults;
  - `gpu`: the textures and compute pipelines the renderer creates (`GpuPlan`);
  - `buffer`: the sizes storage buffers are created with (`BufferLayout`);
  - `frame`: the compute passes of one frame, in order, with their workgroup
    counts and the immediate data each cascade pass encodes;
  - `window`: how the window answers its events (`window_event`).
  Each module states its laws as public proof functions (`lemma_*`).
- `app/` is the program around it: the `wgpu` device and surface, the `winit`
  event loop, and the floating-point particle simulation and vector math. It
  reads its WGSL shaders from `res/shaders/` at run time.
- `tests/` runs the library on concrete values.
