# vers

The core of the VERS Vulkan engine, verified with Verus.

- `src/` is the verified library: the decisions the renderer makes (which GPU
  to use, which queue families, the swapchain's format, present mode, extent,
  image count and sharing, the frame loop that orders each frame's steps,
  skips and rebuilds, and cycles the frame slot) and the system-information logic (reading the
  environment, the GPU listings of `lspci`, PowerShell and `system_profiler`,
  the stand-in description). Each function states its result in its contract,
  over plain values; the laws of the library are proof functions beside them.
- `app/` is the engine around it: the Vulkan calls through `ash`, window
  surfaces, `sysinfo`, running the GPU-listing tools, and printing.
- `tests/` runs the library on concrete inputs.
