# microbit_kit

The logic of a handful of BBC micro:bit v2 programs, proved with Verus.

- `src/` is the verified library:
  - `grid`, `prng`, `cells`, `snake`: the snake game (moves, wrap-around,
    growth, collisions, food placement, the picture and the food's blink);
    `cells` holds the game's two `heapless` collections behind trusted
    wrappers;
  - `arrow`: the turn-signal arrow's frames and button handling;
  - `siren`: the 440-660 Hz siren sweep and the countdown that stops it;
  - `roulette`: the light that runs round the matrix's edge;
  - `magno`: the LSM303AGR magnetometer over an I2C bus (configuration
    register, conversion to nanotesla), stated over a model of the bus's
    transactions;
  - `twim`: the same magnetometer through the nRF52833's TWIM0 registers
    (register map, transfers, the wait for a transfer's end, and the
    start-up as a step function that the firmware runs);
  - `temp`: the nRF52833 temperature sensor;
  - `serial`: line reading on the serial console, reversed echo, commands.
- `tests/` runs the library on concrete values.
- `app/` is the firmware around it: board set-up, register access,
  interrupt handlers and serial I/O.
