# bme280_driver

A verified driver core for the Bosch BME280 humidity, pressure and
temperature sensor on SPI.

- `src/regs.rs` — register addresses, the setting enums and their field
  encodings, the bit-field registers, the raw measurement burst and the
  trimming parameters.
- `src/bus.rs` — bus steps (`BusOp`) and `Transfer`, a run of steps that
  stops at the first failure.
- `src/spi_sensor.rs` — the typestate sensor handle `Bme280Spi<SPI, MODE>`:
  the steps of each operation, what their results mean, power-mode changes,
  and the forced-measurement state machine `ReadOnce`.
- `src/builder.rs` — `Bme280Builder`.
- `src/time.rs` — the timeout type taken from `embassy-time`.
- `app/` — performs the planned steps on an `embedded-hal-async` SPI device,
  races forced conversions against the timer, converts raw readings to
  physical units with the datasheet's floating-point formulas, and gives the
  error types `Display`.
