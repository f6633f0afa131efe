//! The nRF52833's on-chip temperature sensor (TEMP): its registers and the
//! conversion of its reading, in steps of a quarter degree, to degrees.
use vstd::prelude::*;

verus! {

/// TASKS_START: starts a measurement.
pub const TEMP_TASKS_START: u32 = 0x4000_C000;

/// EVENTS_DATARDY: non-zero once a measurement is ready.
pub const TEMP_EVENTS_DATARDY: u32 = 0x4000_C100;

/// TEMP: the measurement, in units of 0.25 degrees Celsius.
pub const TEMP_RESULT: u32 = 0x4000_C508;

/// The quotient as Rust's `/` computes it on signed integers (rounding
/// toward zero).
pub open spec fn trunc_div(a: int, b: int) -> int {
    if a >= 0 {
        a / b
    } else {
        -((-a) / b)
    }
}

/// The sensor, by the addresses of the three registers it uses.
#[derive(Clone, Copy, Debug, PartialEq, Eq, Structural)]
pub struct TemperatureSensorRaw {
    tasks_start: u32,
    events_datardy: u32,
    temp: u32,
}

impl TemperatureSensorRaw {
    /// The address of TASKS_START.
    pub closed spec fn start_register(&self) -> u32 {
        self.tasks_start
    }

    /// The address of EVENTS_DATARDY.
    pub closed spec fn ready_register(&self) -> u32 {
        self.events_datardy
    }

    /// The address of TEMP.
    pub closed spec fn temp_register(&self) -> u32 {
        self.temp
    }

    /// The sensor at its fixed addresses.
    pub fn new() -> (r: Self)
        ensures
            r.start_register() == TEMP_TASKS_START,
            r.ready_register() == TEMP_EVENTS_DATARDY,
            r.temp_register() == TEMP_RESULT,
    {
        Self { tasks_start: TEMP_TASKS_START, events_datardy: TEMP_EVENTS_DATARDY, temp: TEMP_RESULT }
    }

    /// The address of TASKS_START, where a 1 starts a measurement.
    pub fn tasks_start(&self) -> (a: u32)
        ensures
            a == self.start_register(),
    {
        self.tasks_start
    }

    /// The address of EVENTS_DATARDY, polled until it is non-zero and
    /// cleared after the read.
    pub fn events_datardy(&self) -> (a: u32)
        ensures
            a == self.ready_register(),
    {
        self.events_datardy
    }

    /// The address of TEMP, which holds the measurement.
    pub fn temp(&self) -> (a: u32)
        ensures
            a == self.temp_register(),
    {
        self.temp
    }

    /// Whether an EVENTS_DATARDY value says that the measurement is ready.
    pub fn data_ready(events_datardy: u32) -> (r: bool)
        ensures
            r == (events_datardy != 0),
    {
        events_datardy != 0
    }

    /// Whole degrees Celsius from the TEMP register's value (quarter degrees),
    /// rounding toward zero.
    pub fn read_temp_blocking(raw_temp: i32) -> (r: i32)
        ensures
            r == trunc_div(raw_temp as int, 4),
    {
        raw_temp / 4
    }

    /// Whole degrees Celsius from the TEMP register's bits, read as a signed
    /// 32-bit value.
    pub fn celsius_from_bits(bits: u32) -> (r: i32)
        ensures
            r == trunc_div(bits as i32 as int, 4),
    {
        Self::read_temp_blocking(bits as i32)
    }
}

} // verus!
