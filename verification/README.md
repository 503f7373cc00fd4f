# hi-my-light

Control of a THUNDEROBOT BLE desk lamp (a white front light and an RGB rear
strip), verified with Verus.

- `src/` is the verified library: the nine-byte frame protocol (`protocol/`),
  the two lights and what they remember (`lamp/`), the lamp service that
  decides what is written to the lamp and what is saved (`service.rs`,
  `pending.rs`, `session.rs`), the BLE worker's replies and the shutdown
  turn-off steps (`worker.rs`, `device.rs`, `os_shutdown.rs`,
  `shutdown_once.rs`), installation paths and texts (`desktop.rs`), and the
  command-line input (`cli.rs`). Every public function states its result in
  its contract; the laws that span functions are public proof functions.
- `tests/` runs the library on concrete values.
- `app/` is the program around it: reading and writing files, the BLE
  adapter and worker thread, signal and logind watching, the terminal tool,
  and the floating-point helpers.

The program has no window, tray icon or sound capture: the crates these
need (gpui, ksni, libpulse) are not built with it. It runs the lamp service
without a window.
