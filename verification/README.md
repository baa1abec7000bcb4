# stm32f4_i2c

Drivers for the I2C and FMPI2C peripherals of STM32F4 microcontrollers, with their behaviour proved
in Verus.

The library decides; it touches no hardware. Setting up a bus, checking it for errors and
transferring bytes are operations that ask for one thing at a time, mostly a register access
(`operation::Operation`): `poll` says what is next, or how the operation ended, and `reply`
takes what was read. The proofs cover every sequence of answers that the peripheral may give.

- `src/operation.rs`: operations, and the runs and traces that the laws speak of.
- `src/i2c/`: the I2C peripheral. `mode` and `init` compute and write the timing, `check` finds and
  clears error flags, `transfer` sends and receives, `bus` sets a bus up and `release` takes it
  apart. `observe` says what can be told of a transfer from its accesses alone, and `laws` and
  `write_laws` state what holds of whole transfers.
- `src/fmpi2c/`: the same for the FMPI2C peripheral.
- `src/gpio.rs`, `src/rcc.rs`, `src/time.rs`: pins, clocks and frequencies.
- `app/`: carries the operations out on the registers of an STM32F446.
- `tests/`: runs on given answers.
