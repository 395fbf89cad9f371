# leftwm_display_servers

The display-server side of the LeftWM window manager, as a verified library:
the decisions that the X11 (x11rb and Xlib) and Wayland backends make, each
with a contract that Verus proves.

- `src/` — the library. X11: atoms (`xatom`), window properties (`props`,
  `hints`), the pointer modes (`mode`), event handling (`events`, `notify`,
  `windows`), focus and borders (`focus`), showing and hiding windows
  (`visibility`), property values (`setters`, `states`), display actions
  (`actions`), docks and screens (`dock`, `screens`), colours (`color`), the
  refresh rate (`refresh`) and Xlib's error handler (`xlib`). Wayland: the
  window registry (`registry`), the compositor's actions, borders, layers and
  keys (`wayland`) and the animated pointer (`cursor`).
- `tests/` — tests on concrete values.
- `app/` — the I/O around the library: the X11 connection, its start, event
  loop and display actions; the Xlib display and its error handler; and the
  serialisable window handle.

The Wayland backend's I/O (the compositor built on smithay, its DRM/udev
device handling and its event loop and channels) is not in `app/`: smithay,
smithay-drm-extras, leftwm-core and tokio are not dependencies of this crate.
Its decisions stand in `src/` (`registry`, `wayland`, `cursor`), and the
types that the backends share with the window manager are the library's own
(`models`).
