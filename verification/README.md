# drone_flight_controller

Control logic of a small quadcopter flight controller on an STM32F3
Discovery board, verified with Verus.

- `src/` — the verified library: the ESC duty controller (`motor`), the user
  button edge detector (`button`), the accelerometer/compass sample cache
  (`accel`), the decoding of raw magnetometer registers (`raw_axes`) and the
  LED ring animations (`leds`). It works on plain values only.
- `app/` — the firmware around it: peripheral setup, reading pins, the ADC
  and the LSM303AGR/I3G4250D sensors, writing PWM and GPIO registers, ITM
  printing, and the floating-point statistics of the acceleration.
- `tests/` — tests of the library on concrete values.
