# servo_by_light

Firmware logic for an RP2350 with a VEML7700 ambient light sensor, a servo on a curtain and an
LED, written in Verus.

- `src/` is the verified library. It computes lux values, decides when the curtain moves and
  what the LED shows, formats what is logged, and follows a text through a serial port that
  takes a part of it at a time. What is to be done to the hardware are values (`action`), and
  `room` proves what holds of the curtain however the light changes.
- `app/` performs those actions on the hardware. It holds three programs: the curtain, the
  light sensor on its own with an LED, and a sweep of the servo. `PROGRAM` in `app/main.rs`
  selects the one that runs.
- `tests/` runs the library on concrete values.

The proofs take on trust the fixed-capacity string of `heapless` in which a line is formatted,
and that a number is written to it in decimal digits (`src/line.rs`, and `line_as_str` in
`src/serial.rs`).

What is said of microseconds, of fifty periods a second and of the second for which the sweep
holds a position rests on a clock of 125 MHz (`PWM_CLOCK_HZ`), to which `app/board.rs` sets the
system clock.
