# wire

A small Vulkan renderer that draws a coloured quad, split in two:

- `src/` is the verified library (Verus). It holds every decision the
  renderer makes from what the driver reports: the swapchain's extent, image
  count, format and present mode (`swapchain`), which GPU is suitable, which
  one is taken (the first suitable) and its graphics queue family
  (`device`), the instance extensions with validation (`context`), layer and extension name matching (`names`), how each kind of
  buffer is allocated and the checks on writing and copying (`buffer`), the
  loading of SPIR-V shader code (`pipeline`) and the draw cycle over the
  frames in flight (`frame`), a state machine whose laws are proved there,
  among them that a frame's fence is reset only after an image was acquired
  and that the cycle never waits on a fence it reset without submitting.
  `vulkan` holds the raw Vulkan values these rules use.
- `app/` is the program around it: the winit event loop and every Vulkan call
  made through ash, ash-window and vk-mem, which need `unsafe` and talk to the
  driver. It converts what the driver returns into the library's plain values
  and performs the actions the library decides.

The compiled shaders are read at start-up from `shaders/slang.spv`.
