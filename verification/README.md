# gb_emu

A Game Boy / Game Boy Color emulator core whose logic is verified with Verus.

- `src/` — the verified library: CPU (`cpu`), memory map and cartridges
  (`memory`), PPU (`ppu`), APU (`apu`), timer, joypad, interrupts, the bus
  that routes CPU accesses, snapshots, log rate limiting, and the whole
  machine (`gameboy`). Each module states its behaviour as `requires` /
  `ensures` over spec views, and laws about it as public proof functions
  (`law_*`).
- `tests/` — executable tests of the library.
- `app/` — the host side: WebAssembly and C bindings, the wall clock,
  console output, float audio samples, the camera sensor model and the
  float parts of the sound debug view.

The machine runs one frame with `GameBoyCore::step_frame(now)`. A Pocket
Camera capture stops the run with `FrameEvent::Capture`; the host computes
the sensor output, hands it to `store_camera_capture`, and calls
`step_frame` again to finish the frame.
