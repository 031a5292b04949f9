# vmedia

A small desktop media player for GNOME: a GTK 4 / libadwaita window around
libmpv. The playback logic is a Verus-verified library; the window, the libmpv
bindings and the files on disk are ordinary Rust around it.

## Layout

- `src/` — the verified library (`vmedia`)
  - `state`, `event`, `command`, `models` — the application state and how each
    event changes it
  - `controller`, `backend`, `mpv` — the player controller's decisions: which
    libmpv calls a request makes, how a refresh reads libmpv, load time-outs,
    and the events it reports
  - `history`, `session` — saved playback positions, resume after a load, and
    the periodic save
  - `shortcuts`, `keys` — shortcut bindings, matching of key presses, and the
    shortcut recording dialog
  - `playlist`, `path` — the playlist of the playing file's directory and
    path rules
  - `view`, `controls`, `text` — what the window shows: labels, icons, layout,
    the auto-hiding and draggable control bar, and time formats
  - `xdg`, `config` — file locations and window settings
- `tests/` — tests of the library
- `app/` — the program: GTK widgets, libmpv through its C interface, JSON
  files, logging

Times are whole milliseconds; volume and speed are thousandths (a volume of
`50_000` is 50 %, a speed of `1_000` is normal speed).
