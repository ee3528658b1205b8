# rumbledome

Logic of the RumbleDome electronic boost controller, written in Verus and
proved against its contracts.

- `src/` — the verified library: EEPROM storage with wear tracking and its
  section layout (`storage`), full-system backup and restore (`backup`),
  CAN decoding of the engine signals (`can`), button debouncing and LED
  patterns (`gpio`), the SD card protocol, mount state and file layout
  (`sdcard`), the user profile set (`profiles`), the Bluetooth console
  session (`bluetooth`), display bookkeeping (`display`), system states and
  faults (`state`, `error`), control-loop bookkeeping and the safety event
  history (`monitor`), overboost detection and progressive-limit decisions
  (`safety`), the end-of-run decisions of auto-calibration (`calibration`),
  the simulator key map (`sim_input`), PWM/ADC/watchdog settings (`hw`), time keeping
  (`time`), simulator scenarios and configuration (`scenarios`,
  `sim_config`), and the protocol vocabulary (`protocol`). `bounded` holds
  the contracts of the `heapless` buffers the library uses; `text` the
  verified text formatting.
- `tests/` — tests of the library on concrete values.
- `app/` — the command-line tool: backup files, profile and simulator
  configuration files, and the floating-point computations (configuration
  validation, sensor fusion, PID and slew limiting, the learned duty-cycle
  map, auto-calibration runs and safety monitoring around the verified
  decisions, engineering units and display texts).

Values that the controller keeps as `f32` are carried by the library as
their bit patterns (`f32::to_bits`); the tool converts them.
