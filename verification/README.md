# BME280 driver logic, verified

A Verus library for the Bosch BME280 temperature / pressure / humidity sensor
on ESP32-C3 boards, with an async Embassy program around it.

- `src/calibration.rs`: the trimming parameters and their decoding from the
  calibration register blocks (little-endian pairs, packed 12-bit H4/H5).
- `src/compensation.rs`: the datasheet's fixed-point compensation formulas,
  stated over integers, with the exact inputs on which they overflow.
- `src/bme280.rs`: registers, `Reading`, `Error`, the `Bme280` driver object,
  unpacking and compensation of the data registers.
- `src/protocol.rs`: initialisation and measurement as state machines that
  name the next register transfer, with the laws about whole runs.
- `src/utils.rs`: the integer side of the HSV to RGB conversion.
- `src/bits.rs`: shift facts used by the proofs.
- `app/`: the program: it performs the transfers on the I2C bus, waits between
  status polls, does the floating-point colour arithmetic, and logs readings.
