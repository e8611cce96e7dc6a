# d3d_window

The decisions of a handful of small Win32 / Direct3D 11 windowed programs
(a message box, an empty window, a window with a Direct3D device, one that
clears its back buffer every frame, one that also builds a shader pipeline),
written as a verified library:

- `src/` holds, with contracts proved by Verus: what the window procedure
  calls for a message and in which order; how the message loop reacts to each
  fetched message; every start-up, Direct3D set-up and drawing call in order,
  with its arguments as plain values (window class, frame request, window
  creation, device and swap chain creation for the program's window, render
  target binding, shader compile and creation, input layout, vertex buffer
  description, map and present arguments); which Direct3D objects exist, the
  steps that stop the program when one that a call needs is missing, and what
  each failure does; and UTF-16 encoding of the strings the wide-character
  calls read.
- `app/` makes the system and graphics calls with those arguments (through the
  `windows` crate, which only builds for Windows targets), keeps the objects,
  and asks the library what to do next. The floats (viewport, clear colour,
  vertex data) stay there.
- `tests/` runs the library on concrete values.
