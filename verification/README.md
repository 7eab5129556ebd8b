# carvera_spindle

Spindle controller for a Carvera CNC driving a maxon ESCON 50/5 through an
RP2350 (Pico 2): it reads the Carvera PWM speed request, corrects it with a
recorded calibration table, drives the ESCON set-point and enable lines,
watches speed, current and temperature, and shows the state on a 16x2 LCD.

- `src/` is the verified library. Every function carries a Verus contract:
  conversions, median filtering, stall and stabilization detection, the
  error latches, the calibration recorder, command-sequence detection, the
  calibration store with its interpolation, the flash image format, the LCD
  text and backlight, and the per-iteration decisions of each task
  (`src/tasks/`). Public proof functions state the properties that hold
  across calls.
- `tests/` exercises the library on concrete values.
- `app/` is the Embassy firmware around the library: peripheral setup,
  PIO programs, ADC, GPIO, PWM, flash, timers and channels.
