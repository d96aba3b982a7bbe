# fimur

A driver for arrays of ICM-20948 inertial measurement units, fused into one
virtual IMU.

- `src/` is the verified library (Verus): the ICM-20948 register map; the
  bus transactions of every driver command (`protocol`), stated exactly; a
  register-file model of the sensor (`model`) and the laws of the driver
  proved over it (`laws`): a full-scale range read back is the range
  written, setting a range keeps the other configuration bits, reading
  changes nothing, every access first selects the right bank; the
  per-sensor configuration rules; the angle encoder decoding; the status
  LED colour cycle.
- `app/` is ordinary Rust around it: the I2C transport (embedded-hal), the
  multiplexer bring-up (xca9548a, embedded-hal-bus), and all floating-point
  code: unit conversion, frame transformations, averaging and Kalman
  filters (nalgebra, libm, heapless), and the least-squares fusion core.
- `tests/` exercise the library, among others on a simulated sensor.
