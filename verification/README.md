# relm_bar

A status bar for a tiling window manager, built on relm4/GTK 4.

- `src/` is the verified library: what every widget shows (tab classes and
  labels, layout options, gauges, volume and theme labels, monitor badge),
  how user input becomes window-manager actions, when the window-manager
  transport is retried, what the platform does for each runtime effect, and
  how the monitor id and application id are derived at start-up.
- `app/` is the program: the relm4 components, the GTK window, timers,
  helper processes and the runtime of the window manager.
- `tests/` runs the library on concrete values.
