# rust_cube

A textured cube drawn with Vulkan (vulkano) in a winit window.

- `src/` is the verified library, in Verus: the choice of surface format,
  present mode, composite alpha and swapchain parameters; the swapchain's
  frame state machine (rebuild requests, acquire and present outcomes, the
  ring of frame fences); physical-device and queue-family selection; the
  instance's validation-layer plan; per-frame resources; draw parameters;
  the window-event policy; and the cube's index data. Each public function
  has a contract, and the `law_*` proof functions state properties that hold
  across calls.
- `app/` is the program: it creates the window, the Vulkan objects and the
  GPU resources, converts what vulkano and winit report into the library's
  plain values, and carries out the library's decisions.
- `tests/` runs the library on concrete values.

The program expects SPIR-V shaders at `shaders/vert.spv` and
`shaders/frag.spv` and a texture at `textures/texture.jpg`.
