# panium

A screen magnifier for Wayland. It takes a screenshot through the `wlr-screencopy` protocol
and shows it full screen, to be zoomed, moved and lit by a spotlight.

    panium [--backend <gles2|gl33|gl20>]

| Input                     | Effect                          |
|---------------------------|---------------------------------|
| `W`, `S`, mouse wheel     | zoom in and out at the cursor   |
| arrow keys, left drag     | move the picture                |
| `F`                       | switch the spotlight            |
| `Escape`, `Q`             | leave                           |

- `src/` is the library, verified with Verus: the command line, the course of a capture, the
  conversion of pixels, the reaction to input, and the steps of building the shader program
  and of drawing. Its laws are the proof functions named `law_*`.
- `app/` is the program around it: the connection to the compositor, the window, the OpenGL
  calls, and the floating-point geometry of zoom and position.
- `tests/` runs the library on concrete values.

What the library takes on trust of other code is marked `external_body` and described where
it stands: the names of `wl_shm` formats, the flags of a screencopy frame, and the decoding
of UTF-8 with replacement.
