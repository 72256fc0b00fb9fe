# ae2_lanuis_client_lib

Verified decision core of the AE2 Lanuis terminal client shell (Windows
desktop and Android), written in Verus.

- `src/config.rs`: the stored connection settings and their defaults.
- `src/window.rs`: how windows are focused, shown, hidden, closed and opened
  without duplicates, with a model of what each step does and its laws.
- `src/tray.rs`: the tray menu, its stable ids, and the dispatch of tray
  clicks; the window commands of the tray.
- `src/shell.rs`: `run`, the answer of the shell to each event of the
  application loop (start, close requests, tray events).
- `app/`: the Tauri program that performs the I/O: files, JSON, windows, the
  tray icon, and the event loop that asks `run` what to do.
