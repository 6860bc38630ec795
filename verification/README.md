# Aura

A live-wallpaper manager for the COSMIC desktop: it plays videos and images
as wallpapers through `mpvpaper`, one player per screen, keeps a library of
wallpaper files, fetches wallpapers from online catalogues, pauses playback
during games or on battery, and takes the desktop accent colour from the
wallpaper.

## Layout

- `src/` is the library, verified with Verus. Every function states what it
  returns or changes in its `requires`/`ensures` contract.
  - `state/` — the application state and, for each event (a button, a timer,
    a finished download), the next state and the effects to carry out.
  - `engine/` — the players: options, command lines, IPC commands and replies,
    which player runs where, pausing.
  - `scanner/` — the library: supported files, entries, thumbnail and cache
    names, and the sorted, duplicate-free listing built from a scan.
  - `online/` — the catalogues (Bing, Wallhaven, the minimalistic collection,
    MotionBGS), download names, and releases of the program.
  - `config.rs`, `cli.rs`, `console.rs`, `i18n.rs`, `tray.rs`, `theme.rs`,
    `playlist.rs`, `system.rs` — settings, command line, terminal output,
    texts in Spanish and English, tray menu, theme files, playlist order, and
    game detection.
  - `text.rs`, `unicode.rs`, `paths.rs`, `lines.rs`, `strmap.rs`,
    `strlist.rs` — text, path and collection building blocks.
- `tests/` — tests of the library.
- `app/` — the program: reading and writing files, running processes, the
  network, the system bus and the tray icon, driving the library.
