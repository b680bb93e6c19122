# WindowAutoLayout

A Windows tray program that puts app windows back where a profile saved them:
on the right monitor, at the saved size, launching apps that are not running
when asked to.

- `src/` is the `windowautolayout` library, verified with Verus: the
  configuration model and its normalization, monitor resolution, layout
  scaling and placement, window matching, the restore state machines (one
  app, one profile, the hold check after a move), capturing layouts, launch
  planning and the tray's decisions. The contracts state what the functions
  return; several laws that relate functions, such as restoring a saved
  window to its rectangle or what validation still reports after
  normalization, are proof functions beside them.
- `app/` is the program around it: Win32 calls, the registry, files, the
  tray and the window. It performs what the library decides.
- `tests/` runs the library on concrete cases.
