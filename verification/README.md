# gl-thin

A thin layer over OpenGL (ES) and OpenXR for drawing XR scenes, with its
decisions proved correct by Verus.

- `src/` is the verified library. It holds what the GL and OpenXR code decides
  on plain values: how the GL error queue is drained, pixel formats and the
  size check of pixel data, vertex attribute byte layouts, the texture unit
  state, the shader sources, the OpenXR result and event protocols (two-call
  array queries, waiting for a ready session, emptying the event queue,
  painting the views of a frame), version checks, swapchain format choice,
  the colour types of decoded PNG images, where glyph pixels land in a
  texture, and the paused/active life cycle of the application. Each public
  function states its result in `ensures`; what a drawable does to itself
  when it draws a frame or is suspended is the application's to say, through
  `Drawable::frame_step` and `Drawable::suspend_step`. The laws that relate
  several functions are public proof functions.
- The calls into outside crates that `src/` makes (std's integer formatting,
  the `openxr-sys` constants and version packing, and PNG decoding with the
  `png` crate) stand behind trusted wrappers whose contracts Verus takes as
  given; everything built on their results is proved.
- `app/` performs the calls: the RAII wrappers around GL objects, the OpenXR
  session, the shader programs, the floating-point matrix math, and the
  winit application, which runs on Android.
- `tests/` runs the library on concrete values.
