# gldemo

Typed helpers for writing GLSL shaders and driving OpenGL objects, with the
SDL/OpenGL demos that use them.

* `src/` is the library, verified with Verus. It never talks to the driver
  itself: every OpenGL call it decides on is appended, with its arguments, to
  a list of `GlCall` values, and every answer it needs from the driver (a new
  object name, a compile or link status, an info log) is passed in.
  * `shader_builder`: GLSL source built line by line (globals, uniform blocks,
    functions), handed to the driver as the exact list of lines.
  * `glsl`: shader objects, the Rust types standing for GLSL types, globals,
    attribute and uniform locations, attribute layouts.
  * `program`: program objects, compile/link verdicts, active-variable lists.
  * `buffers`: vertex arrays, vertex/element buffers, textures and texture
    units, with what each buffer was filled with.
  * `pixel_format`, `demo`: SDL pixel formats to GL formats; demo selection
    and the event loop's stop rule.
  * `laws`: properties that span several operations.
* `app/` is the program: it owns the window and the GL context, performs the
  calls, asks the driver its questions, and holds the floating-point parts
  (matrices, colours, timing).
