//! Logic of a set of micro:bit programs: a snake game, a turn-signal
//! arrow, a siren sweep, a roulette light path, a serial line reader and
//! the register-level protocol of the LSM303AGR magnetometer and the
//! nRF52833 temperature sensor.

pub mod cells;
pub mod grid;
pub mod prng;
pub mod snake;
pub mod arrow;
pub mod siren;
pub mod magno;
pub mod twim;
pub mod temp;
pub mod roulette;
pub mod serial;
