# winoleum

A small tiling window manager for Windows, split in two:

- `src/` is the verified library (Verus). It holds the decisions: which
  top-level windows are tiled (`windows`), where each laid-out window goes in
  the work area (`tiling`), how the border hook shrinks the client area and
  paints a red border as a step-by-step protocol that never leaks a GDI
  object (`border`, `geometry`), what the shell-hook window procedure and the
  hot key loop do with each message (`messages`), the wide strings and
  tooltip that the Windows API is given and the decoding of window titles
  (`text`), and the notification-area icon's data (`tray`).
- `app/` is the program around it: `main`, the exported hook callbacks, and
  every call into the Windows API (`winapi`), the flexbox layout (`stretch`,
  which works in floating point) and DLL loading (`libloading`). It only
  builds for Windows targets.
- `tests/` runs the library on concrete values.
