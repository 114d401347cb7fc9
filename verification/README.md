# mandelbrot

An interactive Mandelbrot / Julia set viewer for Windows and OpenGL 4.5.

- `src/` is the verified library (Verus):
  - `viewer.rs`: the per-frame state machine. A key acts once per press; up
    and down change the quality level (never below 1); enter switches
    between the Mandelbrot and the Julia set. The iteration count handed to
    the shaders is `1 << quality` on `i32`, which is `2^quality` up to
    quality 30 and `-2^31` at quality 31. `step` is defined where the
    quality arithmetic cannot overflow; `step_wrapping` is the
    wrapping-arithmetic frame, and the two agree wherever `step` is defined.
    The laws of the state machine are proof functions in this file.
  - `program.rs`: the OpenGL call sequences, as data, that build the
    shaders and the fractal programs (create, load the source, compile,
    link, look up the uniforms) and that set the uniforms each frame; the
    programs take their uniform locations in look-up order.
  - `window.rs`: the window's input queries and error types.
  - `math.rs`: the integer vector type.
- `app/` is the program: the Win32 window, the OpenGL loader that performs
  the library's call sequences, and the floating-point view arithmetic (pan
  and zoom), which Verus does not verify. It reads its GLSL shaders from the
  `shader` directory beside the executable.
- `tests/` runs the library on concrete values.
