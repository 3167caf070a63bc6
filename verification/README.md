# Crystal VK

Convenient abstractions over Vulkan, with the decisions they take proved
correct by Verus.

- `src/` is the verified library. It works on plain values (raw Vulkan enums,
  flags and handles) and decides what the wrapper does: which memory type,
  depth format, queue families, sample count and present mode to use, how
  render passes, framebuffers, swapchains, pipelines and descriptor writes are
  described, which commands a command buffer builder records in each of its
  states, and how the GPU futures move from submission to completion. Laws
  that relate several of these functions are stated as public proof
  functions beside them.
- `app/` is the wrapper that owns the Vulkan objects. It makes the calls into
  the driver through `ash`, hands the library what the driver reported, and
  carries out what the library decided.
- `tests/` runs the library on concrete values.
