//! The magnetometer driven directly through the nRF52833's TWIM0 (I2C
//! master) registers: the register map, the values written to set the bus
//! up, the register writes of one transfer, and the wait for its end.
//!
//! The device registers are read and written by the caller, in the order
//! that these functions give.
use vstd::prelude::*;

use crate::magno::{
    axis_of, config_register_value, field_outcome, MagnoAxis, OutputRate, SystemMode,
    AUTO_INCREMENT, MAGNO_CONF_A, MAGNO_STATUS, MAGNO_X_L, STATUS_ZYXDA, WHO_AM_I_M,
    WHO_AM_I_VALUE,
};

verus! {

/// Base address of the TWIM0 peripheral.
pub const TWIM0: u32 = 0x4000_3000;

/// Base address of GPIO port 0.
pub const GPIO0: u32 = 0x5000_0000;

/// Base address of the GPIOTE peripheral.
pub const GPIOTE_BASE: u32 = 0x4000_6000;

/// FREQUENCY register value for 100 kbps.
pub const FREQUENCY_K100: u32 = 0x0198_0000;

/// The magnetometer's I2C address as the ADDRESS register takes it.
pub const MAGNO_ADDRESS_REG_VALUE: u32 = 0x1E;

/// ENABLE register value that enables TWIM.
pub const TWIM_ENABLE: u32 = 6;

/// The clock line's pin (P0.08).
pub const SCL_PIN: u32 = 8;

/// The data line's pin (P0.16).
pub const SDA_PIN: u32 = 16;

/// Pin configuration: input buffer connected, pull-up (3 in bits 2-3),
/// S0D1 drive (6 in bits 8-10).
pub const PIN_CNF_VALUE: u32 = 0x60C;

/// The most clock pulses sent to make a stuck device let go of the bus.
pub const BUS_CLEAR_PULSES: u32 = 9;

/// SHORTS value for a write then read: LASTTX_STARTRX (bit 7) and
/// LASTRX_STOP (bit 12).
pub const SHORTS_WRITE_READ: u32 = 0x1080;

/// SHORTS value for a write only: LASTTX_STOP (bit 9).
pub const SHORTS_WRITE: u32 = 0x200;

/// A register used by the driver.
#[derive(Clone, Copy, Debug, PartialEq, Eq, Structural)]
pub enum Reg {
    TasksStartTx,
    EventsStopped,
    EventsError,
    EventsLastRx,
    EventsLastTx,
    Shorts,
    ErrorSrc,
    Enable,
    PselScl,
    PselSda,
    Frequency,
    RxdPtr,
    RxdMaxcnt,
    TxdPtr,
    TxdMaxcnt,
    Address,
    PinCnfScl,
    PinCnfSda,
    GpioteConfig0,
}

/// A register's address.
pub open spec fn reg_address(r: Reg) -> u32 {
    match r {
        Reg::TasksStartTx => (TWIM0 + 0x008) as u32,
        Reg::EventsStopped => (TWIM0 + 0x104) as u32,
        Reg::EventsError => (TWIM0 + 0x124) as u32,
        Reg::EventsLastRx => (TWIM0 + 0x15C) as u32,
        Reg::EventsLastTx => (TWIM0 + 0x11C) as u32,
        Reg::Shorts => (TWIM0 + 0x200) as u32,
        Reg::ErrorSrc => (TWIM0 + 0x4C4) as u32,
        Reg::Enable => (TWIM0 + 0x500) as u32,
        Reg::PselScl => (TWIM0 + 0x508) as u32,
        Reg::PselSda => (TWIM0 + 0x50C) as u32,
        Reg::Frequency => (TWIM0 + 0x524) as u32,
        Reg::RxdPtr => (TWIM0 + 0x534) as u32,
        Reg::RxdMaxcnt => (TWIM0 + 0x538) as u32,
        Reg::TxdPtr => (TWIM0 + 0x544) as u32,
        Reg::TxdMaxcnt => (TWIM0 + 0x548) as u32,
        Reg::Address => (TWIM0 + 0x588) as u32,
        Reg::PinCnfScl => (GPIO0 + 0x720) as u32,
        Reg::PinCnfSda => (GPIO0 + 0x740) as u32,
        Reg::GpioteConfig0 => (GPIOTE_BASE + 0x510) as u32,
    }
}

impl Reg {
    /// The register's address.
    pub fn address(&self) -> (a: u32)
        ensures
            a == reg_address(*self),
    {
        match self {
            Reg::TasksStartTx => TWIM0 + 0x008,
            Reg::EventsStopped => TWIM0 + 0x104,
            Reg::EventsError => TWIM0 + 0x124,
            Reg::EventsLastRx => TWIM0 + 0x15C,
            Reg::EventsLastTx => TWIM0 + 0x11C,
            Reg::Shorts => TWIM0 + 0x200,
            Reg::ErrorSrc => TWIM0 + 0x4C4,
            Reg::Enable => TWIM0 + 0x500,
            Reg::PselScl => TWIM0 + 0x508,
            Reg::PselSda => TWIM0 + 0x50C,
            Reg::Frequency => TWIM0 + 0x524,
            Reg::RxdPtr => TWIM0 + 0x534,
            Reg::RxdMaxcnt => TWIM0 + 0x538,
            Reg::TxdPtr => TWIM0 + 0x544,
            Reg::TxdMaxcnt => TWIM0 + 0x548,
            Reg::Address => TWIM0 + 0x588,
            Reg::PinCnfScl => GPIO0 + 0x720,
            Reg::PinCnfSda => GPIO0 + 0x740,
            Reg::GpioteConfig0 => GPIOTE_BASE + 0x510,
        }
    }
}

/// The register map, as the nRF52833 datasheet places each register: TWIM0
/// registers at their offsets from 0x4000_3000, PIN_CNF[n] at 0x700 + 4n
/// from GPIO port 0 (0x5000_0000), GPIOTE CONFIG[0] at 0x510 from
/// 0x4000_6000. No two registers share an address.
pub proof fn lemma_register_map(a: Reg, b: Reg)
    ensures
        reg_address(Reg::TasksStartTx) == 0x4000_3008,
        reg_address(Reg::EventsStopped) == 0x4000_3104,
        reg_address(Reg::EventsError) == 0x4000_3124,
        reg_address(Reg::EventsLastRx) == 0x4000_315C,
        reg_address(Reg::EventsLastTx) == 0x4000_311C,
        reg_address(Reg::Shorts) == 0x4000_3200,
        reg_address(Reg::ErrorSrc) == 0x4000_34C4,
        reg_address(Reg::Enable) == 0x4000_3500,
        reg_address(Reg::PselScl) == 0x4000_3508,
        reg_address(Reg::PselSda) == 0x4000_350C,
        reg_address(Reg::Frequency) == 0x4000_3524,
        reg_address(Reg::RxdPtr) == 0x4000_3534,
        reg_address(Reg::RxdMaxcnt) == 0x4000_3538,
        reg_address(Reg::TxdPtr) == 0x4000_3544,
        reg_address(Reg::TxdMaxcnt) == 0x4000_3548,
        reg_address(Reg::Address) == 0x4000_3588,
        reg_address(Reg::PinCnfScl) == 0x5000_0700 + 4 * SCL_PIN,
        reg_address(Reg::PinCnfSda) == 0x5000_0700 + 4 * SDA_PIN,
        reg_address(Reg::GpioteConfig0) == 0x4000_6510,
        a != b ==> reg_address(a) != reg_address(b),
{
}

/// A register write: the register and the value.
pub type RegWrite = (Reg, u32);

/// The PSEL value that connects a pin: pin number in bits 0 to 4, port in
/// bit 5, and the CONNECT bit 31 clear for connected.
pub open spec fn pin_select_value(pin: u32, port: u32, connect: u32) -> int {
    connect * 0x8000_0000 + port * 32 + pin
}

/// The PSEL value for `pin` on `port`, with `connect` in bit 31.
pub fn pin_select(pin: u32, port: u32, connect: u32) -> (r: u32)
    requires
        pin < 32,
        port < 2,
        connect < 2,
    ensures
        r == pin_select_value(pin, port, connect),
{
    assert((connect << 31u32) | (port << 5u32) | pin == connect * 0x8000_0000 + port * 32 + pin)
        by (bit_vector)
        requires
            pin < 32,
            port < 2,
            connect < 2,
    ;
    (connect << 31u32) | (port << 5u32) | pin
}

/// The transmit buffer and register values of one transfer.
#[derive(Clone, Copy, Debug, PartialEq, Eq)]
pub struct TwimTransfer {
    /// Bytes to send: the register address, then the value when writing one.
    pub tx_buf: [u8; 2],
    /// How many bytes of `tx_buf` to send.
    pub tx_len: u32,
    /// How many bytes to receive.
    pub rx_len: u32,
    /// The SHORTS value that ends the transfer.
    pub shorts: u32,
}

/// The writes that prepare the pins for freeing a stuck bus: the clock
/// pin's configuration set to 1, the data pin made an input with pull-up.
pub open spec fn bus_clear_setup_seq() -> Seq<RegWrite> {
    seq![(Reg::PinCnfScl, 1u32), (Reg::PinCnfSda, 12u32)]
}

/// The writes of one clock pulse on a stuck bus.
pub open spec fn bus_clear_pulse_seq() -> Seq<RegWrite> {
    seq![(Reg::PselSda, 256u32), (Reg::PselScl, 256u32)]
}

/// The writes that set TWIM0 up: both pins configured, connected to TWIM,
/// 100 kbps, the magnetometer's address, and TWIM enabled.
pub open spec fn setup_seq() -> Seq<RegWrite> {
    seq![
        (Reg::PinCnfScl, PIN_CNF_VALUE),
        (Reg::PinCnfSda, PIN_CNF_VALUE),
        (Reg::PselScl, SCL_PIN),
        (Reg::PselSda, SDA_PIN),
        (Reg::Frequency, FREQUENCY_K100),
        (Reg::Address, MAGNO_ADDRESS_REG_VALUE),
        (Reg::Enable, TWIM_ENABLE),
    ]
}

/// The writes that clear the events and the error source.
pub open spec fn clear_events_seq() -> Seq<RegWrite> {
    seq![
        (Reg::EventsLastTx, 0u32),
        (Reg::EventsLastRx, 0u32),
        (Reg::EventsStopped, 0u32),
        (Reg::EventsError, 0u32),
        (Reg::ErrorSrc, 0u32),
    ]
}

impl TwimTransfer {
    /// A transfer that sends the register address `address`, followed by
    /// `write_value` when there is one (and then stops), or else receives
    /// `rx_len` bytes (and then stops).
    pub fn new(address: u8, write_value: Option<u8>, rx_len: usize) -> (t: TwimTransfer)
        ensures
            t.tx_buf[0] == address,
            t.rx_len == rx_len as u32,
            match write_value {
                Some(v) => t.tx_buf[1] == v && t.tx_len == 2 && t.shorts == SHORTS_WRITE,
                None => t.tx_buf[1] == 0 && t.tx_len == 1 && t.shorts == SHORTS_WRITE_READ,
            },
    {
        let mut tx_buf = [0u8; 2];
        tx_buf[0] = address;
        let tx_len: u32;
        let rx_len = rx_len as u32;
        let mut shorts_value = SHORTS_WRITE_READ;
        if let Some(val) = write_value {
            tx_buf[1] = val;
            tx_len = 2;
            shorts_value = SHORTS_WRITE;
        } else {
            tx_len = 1;
        }
        TwimTransfer { tx_buf, tx_len, rx_len, shorts: shorts_value }
    }

    /// The writes that start the transfer once TXD.PTR and RXD.PTR point at
    /// the buffers: the two lengths, the shortcuts, then the start task.
    pub fn start_writes(&self) -> (w: Vec<RegWrite>)
        ensures
            w@ == seq![
                (Reg::TxdMaxcnt, self.tx_len),
                (Reg::RxdMaxcnt, self.rx_len),
                (Reg::Shorts, self.shorts),
                (Reg::TasksStartTx, 1u32),
            ],
    {
        let w = vec![
            (Reg::TxdMaxcnt, self.tx_len),
            (Reg::RxdMaxcnt, self.rx_len),
            (Reg::Shorts, self.shorts),
            (Reg::TasksStartTx, 1u32),
        ];
        assert(w@ =~= seq![
                (Reg::TxdMaxcnt, self.tx_len),
                (Reg::RxdMaxcnt, self.rx_len),
                (Reg::Shorts, self.shorts),
                (Reg::TasksStartTx, 1u32),
            ]);
        w
    }
}

/// The wait for the end of a transfer, one register read at a time. It reads
/// EVENTS_STOPPED; when that is not 1 it reads EVENTS_ERROR; when that is 1
/// it clears it and reads ERROR_SRC, clears that when it is not 0, and
/// reports it as the error.
#[derive(Clone, Copy, Debug, PartialEq, Eq)]
pub enum StopWait {
    AwaitStopped,
    AwaitErrorEvent,
    AwaitErrorSource,
    Done(Result<(), u32>),
}

/// The state after reading `value` in state `s`, and the write to make.
pub open spec fn stop_wait_step(s: StopWait, value: u32) -> (StopWait, Option<RegWrite>) {
    match s {
        StopWait::AwaitStopped => if value == 1 {
            (StopWait::Done(Ok(())), None)
        } else {
            (StopWait::AwaitErrorEvent, None)
        },
        StopWait::AwaitErrorEvent => if value == 1 {
            (StopWait::AwaitErrorSource, Some((Reg::EventsError, 0u32)))
        } else {
            (StopWait::AwaitStopped, None)
        },
        StopWait::AwaitErrorSource => if value != 0 {
            (StopWait::Done(Err(value)), Some((Reg::ErrorSrc, 0u32)))
        } else {
            (StopWait::Done(Err(value)), None)
        },
        StopWait::Done(r) => (StopWait::Done(r), None),
    }
}

impl StopWait {
    /// The register whose value the wait needs next, or `None` once it is
    /// over.
    pub fn register_to_read(&self) -> (r: Option<Reg>)
        ensures
            r == stop_wait_reads(*self),
    {
        match self {
            StopWait::AwaitStopped => Some(Reg::EventsStopped),
            StopWait::AwaitErrorEvent => Some(Reg::EventsError),
            StopWait::AwaitErrorSource => Some(Reg::ErrorSrc),
            StopWait::Done(_) => None,
        }
    }

    /// Takes the value read from `register_to_read`; gives the next state
    /// and the register write to make before going on.
    pub fn on_read(self, value: u32) -> (r: (StopWait, Option<RegWrite>))
        ensures
            r == stop_wait_step(self, value),
    {
        match self {
            StopWait::AwaitStopped => if value == 1 {
                (StopWait::Done(Ok(())), None)
            } else {
                (StopWait::AwaitErrorEvent, None)
            },
            StopWait::AwaitErrorEvent => if value == 1 {
                (StopWait::AwaitErrorSource, Some((Reg::EventsError, 0u32)))
            } else {
                (StopWait::AwaitStopped, None)
            },
            StopWait::AwaitErrorSource => if value != 0 {
                (StopWait::Done(Err(value)), Some((Reg::ErrorSrc, 0u32)))
            } else {
                (StopWait::Done(Err(value)), None)
            },
            StopWait::Done(r) => (StopWait::Done(r), None),
        }
    }
}

/// The register that state `s` reads.
pub open spec fn stop_wait_reads(s: StopWait) -> Option<Reg> {
    match s {
        StopWait::AwaitStopped => Some(Reg::EventsStopped),
        StopWait::AwaitErrorEvent => Some(Reg::EventsError),
        StopWait::AwaitErrorSource => Some(Reg::ErrorSrc),
        StopWait::Done(_) => None,
    }
}

/// The state of a wait after the values `values` were read, from state `s`.
pub open spec fn stop_wait_run(s: StopWait, values: Seq<u32>) -> StopWait
    decreases values.len(),
{
    if values.len() == 0 {
        s
    } else {
        stop_wait_run(stop_wait_step(s, values[0]).0, values.drop_first())
    }
}

/// Reading one more value steps the wait once more.
proof fn lemma_stop_wait_snoc(s: StopWait, values: Seq<u32>, x: u32)
    ensures
        stop_wait_run(s, values.push(x)) == stop_wait_step(stop_wait_run(s, values), x).0,
    decreases values.len(),
{
    let vx = values.push(x);
    assert(vx[0] == if values.len() == 0 { x } else { values[0] });
    if values.len() == 0 {
        assert(vx.drop_first() =~= Seq::<u32>::empty());
        assert(stop_wait_run(stop_wait_step(s, x).0, vx.drop_first()) == stop_wait_step(s, x).0);
        assert(stop_wait_run(s, values) == s);
    } else {
        let next = stop_wait_step(s, values[0]).0;
        assert(vx.drop_first() =~= values.drop_first().push(x));
        lemma_stop_wait_snoc(next, values.drop_first(), x);
        assert(stop_wait_run(s, values) == stop_wait_run(next, values.drop_first()));
    }
}

/// A wait ends in success only on a read of 1 from EVENTS_STOPPED, and in
/// an error only on a read of ERROR_SRC, whose value is the error. (The wait
/// goes on to read ERROR_SRC only after EVENTS_ERROR read 1.)
pub proof fn lemma_stop_wait_outcomes(s: StopWait, values: Seq<u32>)
    requires
        !(s is Done),
    ensures
        stop_wait_run(s, values) == StopWait::Done(Ok(())) ==> exists|k: int|
            0 <= k < values.len() && #[trigger] stop_wait_run(s, values.take(k))
                == StopWait::AwaitStopped && values[k] == 1,
        forall|e: u32|
            stop_wait_run(s, values) == StopWait::Done(Err(e)) ==> exists|k: int|
                0 <= k < values.len() && #[trigger] stop_wait_run(s, values.take(k))
                    == StopWait::AwaitErrorSource && values[k] == e,
    decreases values.len(),
{
    if values.len() > 0 {
        let prefix = values.drop_last();
        let x = values.last();
        assert(prefix.push(x) =~= values);
        lemma_stop_wait_snoc(s, prefix, x);
        lemma_stop_wait_outcomes(s, prefix);
        let t = stop_wait_run(s, prefix);
        assert forall|k: int| 0 <= k < prefix.len() implies #[trigger] values.take(k)
            == prefix.take(k) by {
            assert(values.take(k) =~= prefix.take(k));
        }
        let n = prefix.len() as int;
        assert(values.take(n) =~= prefix);
        assert(values[n] == x);
        if t is Done {
            assert(stop_wait_run(s, values) == t);
            if t == StopWait::Done(Ok(())) {
                let k = choose|k: int|
                    0 <= k < prefix.len() && #[trigger] stop_wait_run(s, prefix.take(k))
                        == StopWait::AwaitStopped && prefix[k] == 1;
                assert(values.take(k) == prefix.take(k));
                assert(stop_wait_run(s, values.take(k)) == StopWait::AwaitStopped && values[k] == 1);
            }
            assert forall|e: u32| stop_wait_run(s, values) == StopWait::Done(Err(e)) implies exists|
                k: int,
            |
                0 <= k < values.len() && #[trigger] stop_wait_run(s, values.take(k))
                    == StopWait::AwaitErrorSource && values[k] == e by {
                let k = choose|k: int|
                    0 <= k < prefix.len() && #[trigger] stop_wait_run(s, prefix.take(k))
                        == StopWait::AwaitErrorSource && prefix[k] == e;
                assert(values.take(k) == prefix.take(k));
                assert(stop_wait_run(s, values.take(k)) == StopWait::AwaitErrorSource);
            }
        } else {
            assert(stop_wait_run(s, values.take(n)) == t);
        }
    }
}

/// What one read of the wait asks for: a register write only after a
/// nonzero read, only to the register just read, and only to clear
/// EVENTS_ERROR or ERROR_SRC; a read of EVENTS_STOPPED asks for no write and
/// ends the wait, with success, exactly when it is 1; no other read ends the
/// wait with success. EVENTS_ERROR is cleared, and ERROR_SRC read next,
/// exactly when it reads 1 (else the wait goes back to EVENTS_STOPPED);
/// ERROR_SRC ends the wait with its value as the error and is cleared
/// exactly when it is not 0.
pub proof fn lemma_stop_wait_read(s: StopWait, value: u32)
    ensures
        stop_wait_step(s, value).1 matches Some(w) ==> value != 0 && Some(w.0) == stop_wait_reads(s)
            && (w == (Reg::EventsError, 0u32) || w == (Reg::ErrorSrc, 0u32)),
        stop_wait_step(StopWait::AwaitStopped, value).1 is None,
        (stop_wait_step(StopWait::AwaitStopped, value).0 == StopWait::Done(Ok(()))) == (value == 1),
        !(s is Done) && stop_wait_step(s, value).0 == StopWait::Done(Ok(())) ==> s
            == StopWait::AwaitStopped && value == 1,
        (stop_wait_step(StopWait::AwaitErrorEvent, value).1 is Some) == (value == 1),
        (stop_wait_step(StopWait::AwaitErrorEvent, value).0 == StopWait::AwaitErrorSource) == (
        value == 1),
        value != 1 ==> stop_wait_step(StopWait::AwaitErrorEvent, value).0 == StopWait::AwaitStopped,
        stop_wait_step(StopWait::AwaitErrorSource, value).0 == StopWait::Done(Err(value)),
        (stop_wait_step(StopWait::AwaitErrorSource, value).1 is Some) == (value != 0),
{
}

/// A finished wait stays finished.
pub proof fn lemma_done_stays(s: StopWait, values: Seq<u32>)
    requires
        s is Done,
    ensures
        stop_wait_run(s, values) == s,
    decreases values.len(),
{
    if values.len() > 0 {
        lemma_done_stays(stop_wait_step(s, values[0]).0, values.drop_first());
    }
}

/// The magnetometer on TWIM0.
#[derive(Clone, Copy, Debug, PartialEq, Eq, Structural)]
pub struct MagnoSensor {}

/// Why setting the magnetometer up failed.
#[derive(Clone, Copy, Debug, PartialEq, Eq, Structural)]
pub enum InitError {
    /// The bus reported this ERROR_SRC value.
    Bus(u32),
    /// The identification register held this value instead of 64.
    WrongWhoAmI(u8),
    /// Writing the start-up configuration failed with this ERROR_SRC value.
    ConfigWrite(u32),
}

impl Default for MagnoSensor {
    fn default() -> (r: MagnoSensor)
        ensures
            r == (MagnoSensor {}),
    {
        MagnoSensor {}
    }
}

impl MagnoSensor {
    /// The driver value; `Startup` sets the hardware up and hands it out
    /// once the start-up succeeds.
    pub fn new() -> (r: MagnoSensor)
        ensures
            r == (MagnoSensor {}),
    {
        MagnoSensor {}
    }

    /// The writes that free a stuck bus before the loop of clock pulses:
    /// the clock pin's configuration set to 1, the data pin made an input
    /// with pull-up.
    pub fn bus_clear_setup() -> (w: Vec<RegWrite>)
        ensures
            w@ == bus_clear_setup_seq(),
    {
        assert(3u32 << 2u32 == 12u32) by (bit_vector);
        let w = vec![(Reg::PinCnfScl, 1u32), (Reg::PinCnfSda, 3u32 << 2u32)];
        assert(w@ =~= seq![(Reg::PinCnfScl, 1u32), (Reg::PinCnfSda, 12u32)]);
        w
    }

    /// Whether the data line reads high in the GPIOTE CONFIG[0] value, so
    /// the bus is free and the clock pulses can stop.
    pub fn bus_released(config0: u32) -> (r: bool)
        ensures
            r == ((config0 / 0x1_0000) % 2 == 1),
    {
        assert((config0 & (1u32 << 16u32)) != 0 <==> (config0 / 0x1_0000) % 2 == 1)
            by (bit_vector);
        (config0 & (1u32 << SDA_PIN)) != 0
    }

    /// Whether the bus clearing sends another clock pulse after
    /// `pulses_sent` pulses, given the GPIOTE CONFIG[0] value just read: it
    /// stops once the data line reads high, and after at most nine pulses.
    pub fn bus_clear_continues(pulses_sent: u32, config0: u32) -> (r: bool)
        ensures
            r == (pulses_sent < BUS_CLEAR_PULSES && !((config0 / 0x1_0000) % 2 == 1)),
    {
        pulses_sent < BUS_CLEAR_PULSES && !Self::bus_released(config0)
    }

    /// One clock pulse on the stuck bus: a write of the clock pin's bit to
    /// PSEL.SDA, then to PSEL.SCL, with a pause after each.
    pub fn bus_clear_pulse() -> (w: [RegWrite; 2])
        ensures
            w@ == bus_clear_pulse_seq(),
    {
        let w = [(Reg::PselSda, 1u32 << SCL_PIN), (Reg::PselScl, 1u32 << SCL_PIN)];
        assert(1u32 << 8u32 == 256u32) by (bit_vector);
        assert(w@ =~= seq![(Reg::PselSda, 256u32), (Reg::PselScl, 256u32)]);
        w
    }

    /// The writes that set TWIM0 up after the bus is free: both pins
    /// configured, connected to TWIM, 100 kbps, the magnetometer's address,
    /// and TWIM enabled.
    pub fn setup_writes() -> (w: Vec<RegWrite>)
        ensures
            w@ == setup_seq(),
    {
        let scl_value = pin_select(SCL_PIN, 0, 0);
        let sda_value = pin_select(SDA_PIN, 0, 0);
        let w = vec![
            (Reg::PinCnfScl, PIN_CNF_VALUE),
            (Reg::PinCnfSda, PIN_CNF_VALUE),
            (Reg::PselScl, scl_value),
            (Reg::PselSda, sda_value),
            (Reg::Frequency, FREQUENCY_K100),
            (Reg::Address, MAGNO_ADDRESS_REG_VALUE),
            (Reg::Enable, TWIM_ENABLE),
        ];
        assert(w@ =~= seq![
                (Reg::PinCnfScl, PIN_CNF_VALUE),
                (Reg::PinCnfSda, PIN_CNF_VALUE),
                (Reg::PselScl, SCL_PIN),
                (Reg::PselSda, SDA_PIN),
                (Reg::Frequency, FREQUENCY_K100),
                (Reg::Address, MAGNO_ADDRESS_REG_VALUE),
                (Reg::Enable, TWIM_ENABLE),
            ]);
        w
    }

    /// The writes that clear the events and the error source before a
    /// transfer.
    pub fn clear_events() -> (w: Vec<RegWrite>)
        ensures
            w@ == clear_events_seq(),
    {
        let w = vec![
            (Reg::EventsLastTx, 0u32),
            (Reg::EventsLastRx, 0u32),
            (Reg::EventsStopped, 0u32),
            (Reg::EventsError, 0u32),
            (Reg::ErrorSrc, 0u32),
        ];
        assert(w@ =~= seq![
                (Reg::EventsLastTx, 0u32),
                (Reg::EventsLastRx, 0u32),
                (Reg::EventsStopped, 0u32),
                (Reg::EventsError, 0u32),
                (Reg::ErrorSrc, 0u32),
            ]);
        w
    }

    /// The transfer that reads the identification register.
    pub fn verify_who_am_i_transfer() -> (t: TwimTransfer)
        ensures
            t.tx_buf[0] == WHO_AM_I_M,
            t.tx_buf[1] == 0,
            t.tx_len == 1,
            t.rx_len == 1,
            t.shorts == SHORTS_WRITE_READ,
    {
        TwimTransfer::new(WHO_AM_I_M, None, 1)
    }

    /// What the identification read gives: the byte read, or the bus error.
    pub fn verify_who_am_i(&self, rx: Result<[u8; 1], u32>) -> (r: Result<u8, u32>)
        ensures
            r == match rx {
                Ok(v) => Ok::<u8, u32>(v[0]),
                Err(e) => Err(e),
            },
    {
        match rx {
            Ok(v) => Ok(v[0]),
            Err(e) => Err(e),
        }
    }

    /// Whether the set-up may go on after the identification read: it fails
    /// on a bus error and on an identification byte other than 64.
    pub fn check_who_am_i(value: Result<u8, u32>) -> (r: Result<(), InitError>)
        ensures
            r == match value {
                Ok(v) => if v == WHO_AM_I_VALUE {
                    Ok::<(), InitError>(())
                } else {
                    Err(InitError::WrongWhoAmI(v))
                },
                Err(e) => Err(InitError::Bus(e)),
            },
    {
        match value {
            Ok(value) => {
                if value != WHO_AM_I_VALUE {
                    Err(InitError::WrongWhoAmI(value))
                } else {
                    Ok(())
                }
            },
            Err(error) => Err(InitError::Bus(error)),
        }
    }

    /// The value that configuration register A gets at start-up: 100 Hz,
    /// continuous mode, no low power, no reset, no temperature
    /// compensation.
    pub fn default_magno_value() -> (v: u8)
        ensures
            v == config_register_value(
                false,
                false,
                false,
                false,
                OutputRate::Hz100,
                SystemMode::Continuous,
            ),
    {
        let low_power: u8 = 0;
        let odr0: u8 = 1;
        let odr1: u8 = 1;
        let md_value: u8 = 0;
        assert((md_value | (md_value << 1u8) | (odr0 << 2u8) | (odr1 << 3u8) | (low_power << 4u8))
            == 12u8) by (bit_vector)
            requires
                low_power == 0u8,
                odr0 == 1u8,
                odr1 == 1u8,
                md_value == 0u8,
        ;
        md_value | (md_value << 1u8) | (odr0 << 2u8) | (odr1 << 3u8) | (low_power << 4u8)
    }

    /// The transfer that writes the start-up configuration.
    pub fn set_default_magno(&self) -> (t: TwimTransfer)
        ensures
            t.tx_buf[0] == MAGNO_CONF_A,
            t.tx_buf[1] == 12,
            t.tx_len == 2,
            t.rx_len == 0,
            t.shorts == SHORTS_WRITE,
    {
        let magno_value = Self::default_magno_value();
        proof {
            lemma_default_config_agrees();
        }
        TwimTransfer::new(MAGNO_CONF_A, Some(magno_value), 0)
    }

    /// The transfer that reads the status register.
    pub fn status_transfer() -> (t: TwimTransfer)
        ensures
            t.tx_buf[0] == MAGNO_STATUS,
            t.tx_len == 1,
            t.rx_len == 1,
            t.shorts == SHORTS_WRITE_READ,
    {
        TwimTransfer::new(MAGNO_STATUS, None, 1)
    }

    /// What the blocking read does after a status read: poll the status
    /// again (`None`), go on to read the field (`Some(Ok(()))`) once new
    /// data are ready, or stop on a bus error (`Some(Err(e))`).
    pub fn get_magno_value_blocking(&self, status: Result<[u8; 1], u32>) -> (r: Option<
        Result<(), u32>,
    >)
        ensures
            r == match status {
                Ok(s) => if (s[0] / 8) % 2 == 1 {
                    Some(Ok::<(), u32>(()))
                } else {
                    None::<Result<(), u32>>
                },
                Err(e) => Some(Err(e)),
            },
    {
        match status {
            Ok(s) => {
                let v = s[0];
                assert((v & STATUS_ZYXDA) != 0 <==> (v / 8) % 2 == 1) by (bit_vector);
                if (v & STATUS_ZYXDA) != 0 {
                    Some(Ok(()))
                } else {
                    None
                }
            },
            Err(e) => Some(Err(e)),
        }
    }

    /// The transfer that reads the six output registers in one go.
    pub fn field_transfer() -> (t: TwimTransfer)
        ensures
            t.tx_buf[0] == MAGNO_X_L + AUTO_INCREMENT,
            t.tx_len == 1,
            t.rx_len == 6,
            t.shorts == SHORTS_WRITE_READ,
    {
        assert(MAGNO_X_L | AUTO_INCREMENT == 0xE8u8) by (bit_vector);
        TwimTransfer::new(MAGNO_X_L | AUTO_INCREMENT, None, 6)
    }

    /// The field that the six-byte read gives, in nanotesla, or the bus
    /// error.
    pub fn get_magno_value_no_check(&self, rx: Result<[u8; 6], u32>) -> (r: Result<MagnoAxis, u32>)
        ensures
            r == match rx {
                Ok(v) => Ok::<MagnoAxis, u32>(axis_of(v@)),
                Err(e) => Err(e),
            },
    {
        field_outcome(rx)
    }
}

/// The start-up of the register-level driver, one hardware action at a
/// time. It first frees a stuck bus: it reads the data line and, while the
/// line is low, sends a clock pulse, at most nine times. It then sets TWIM0
/// up, clears the events, reads the identification register, and, only when
/// that gave 64, writes the start-up configuration. A bus error, another
/// identification byte or a failed configuration write ends it with that
/// error.
#[derive(Clone, Copy, Debug, PartialEq, Eq)]
pub enum Startup {
    /// Preparing the pins for freeing the bus.
    PreparingBusClear,
    /// Reading the data line after this many clock pulses.
    CheckingLine(u32),
    /// Sending a clock pulse after this many.
    Pulsing(u32),
    /// Setting TWIM0 up.
    SettingUp,
    /// Clearing the events before the identification read.
    ClearingEvents,
    /// Reading the identification register.
    ReadingId,
    /// Writing the start-up configuration.
    Configuring,
    /// Over, with this outcome.
    Done(Result<(), InitError>),
}

/// What the hardware reports after the action of a start-up state.
#[derive(Clone, Copy, Debug, PartialEq, Eq)]
pub enum StartupEvent {
    /// The register writes (or the clock pulse) are made.
    Written,
    /// The register read gave this value.
    LineRead(u32),
    /// The transfer ended: the receive buffer, of which it fills as many
    /// bytes as it receives, or the ERROR_SRC value.
    Transferred(Result<[u8; 1], u32>),
}

/// What the hardware is to do next in the start-up.
#[derive(Debug)]
pub enum StartupAction {
    /// Make these register writes, in order.
    Write(Vec<RegWrite>),
    /// Read this register.
    Read(Reg),
    /// Make these two writes, with a short pause after each: one clock pulse.
    Pulse([RegWrite; 2]),
    /// Run this transfer.
    Transfer(TwimTransfer),
    /// The start-up is over: the driver, or why it failed.
    Finish(Result<MagnoSensor, InitError>),
}

/// The start-up state after `e` was reported in state `s`. An event that the
/// state does not wait for changes nothing.
pub open spec fn startup_step(s: Startup, e: StartupEvent) -> Startup {
    match (s, e) {
        (Startup::PreparingBusClear, StartupEvent::Written) => Startup::CheckingLine(0),
        (Startup::CheckingLine(p), StartupEvent::LineRead(v)) => if p < BUS_CLEAR_PULSES && !((v
            / 0x1_0000) % 2 == 1) {
            Startup::Pulsing(p)
        } else {
            Startup::SettingUp
        },
        (Startup::Pulsing(p), StartupEvent::Written) => if p + 1 < BUS_CLEAR_PULSES {
            Startup::CheckingLine((p + 1) as u32)
        } else {
            Startup::SettingUp
        },
        (Startup::SettingUp, StartupEvent::Written) => Startup::ClearingEvents,
        (Startup::ClearingEvents, StartupEvent::Written) => Startup::ReadingId,
        (Startup::ReadingId, StartupEvent::Transferred(rx)) => match rx {
            Ok(buf) => if buf[0] == WHO_AM_I_VALUE {
                Startup::Configuring
            } else {
                Startup::Done(Err(InitError::WrongWhoAmI(buf[0])))
            },
            Err(e) => Startup::Done(Err(InitError::Bus(e))),
        },
        (Startup::Configuring, StartupEvent::Transferred(rx)) => match rx {
            Ok(_) => Startup::Done(Ok(())),
            Err(e) => Startup::Done(Err(InitError::ConfigWrite(e))),
        },
        _ => s,
    }
}

/// Whether `a` is the action of state `s`.
pub open spec fn is_startup_action(a: StartupAction, s: Startup) -> bool {
    match s {
        Startup::PreparingBusClear => a matches StartupAction::Write(w) && w@
            == bus_clear_setup_seq(),
        Startup::CheckingLine(_) => a == StartupAction::Read(Reg::GpioteConfig0),
        Startup::Pulsing(_) => a matches StartupAction::Pulse(w) && w@ == bus_clear_pulse_seq(),
        Startup::SettingUp => a matches StartupAction::Write(w) && w@ == setup_seq(),
        Startup::ClearingEvents => a matches StartupAction::Write(w) && w@ == clear_events_seq(),
        Startup::ReadingId => a matches StartupAction::Transfer(t) && t.tx_buf[0] == WHO_AM_I_M
            && t.tx_buf[1] == 0 && t.tx_len == 1 && t.rx_len == 1 && t.shorts == SHORTS_WRITE_READ,
        Startup::Configuring => a matches StartupAction::Transfer(t) && t.tx_buf[0]
            == MAGNO_CONF_A && t.tx_buf[1] == 12 && t.tx_len == 2 && t.rx_len == 0 && t.shorts
            == SHORTS_WRITE,
        Startup::Done(Ok(())) => a == StartupAction::Finish(Ok(MagnoSensor {  })),
        Startup::Done(Err(e)) => a == StartupAction::Finish(Err(e)),
    }
}

impl Startup {
    /// The first state of the start-up and its action.
    pub fn begin() -> (r: (Startup, StartupAction))
        ensures
            r.0 == Startup::PreparingBusClear,
            is_startup_action(r.1, r.0),
    {
        let s = Startup::PreparingBusClear;
        (s, s.action())
    }

    /// The action of this state.
    pub fn action(&self) -> (a: StartupAction)
        ensures
            is_startup_action(a, *self),
    {
        match self {
            Startup::PreparingBusClear => StartupAction::Write(MagnoSensor::bus_clear_setup()),
            Startup::CheckingLine(_) => StartupAction::Read(Reg::GpioteConfig0),
            Startup::Pulsing(_) => StartupAction::Pulse(MagnoSensor::bus_clear_pulse()),
            Startup::SettingUp => StartupAction::Write(MagnoSensor::setup_writes()),
            Startup::ClearingEvents => StartupAction::Write(MagnoSensor::clear_events()),
            Startup::ReadingId => StartupAction::Transfer(MagnoSensor::verify_who_am_i_transfer()),
            Startup::Configuring => StartupAction::Transfer(MagnoSensor::new().set_default_magno()),
            Startup::Done(Ok(())) => StartupAction::Finish(Ok(MagnoSensor::new())),
            Startup::Done(Err(e)) => StartupAction::Finish(Err(*e)),
        }
    }

    /// The state after `event`, with its action.
    pub fn advance(self, event: StartupEvent) -> (r: (Startup, StartupAction))
        ensures
            r.0 == startup_step(self, event),
            is_startup_action(r.1, r.0),
    {
        let next = match (self, event) {
            (Startup::PreparingBusClear, StartupEvent::Written) => Startup::CheckingLine(0),
            (Startup::CheckingLine(p), StartupEvent::LineRead(v)) => {
                if MagnoSensor::bus_clear_continues(p, v) {
                    Startup::Pulsing(p)
                } else {
                    Startup::SettingUp
                }
            },
            (Startup::Pulsing(p), StartupEvent::Written) => {
                if p < BUS_CLEAR_PULSES - 1 {
                    Startup::CheckingLine(p + 1)
                } else {
                    Startup::SettingUp
                }
            },
            (Startup::SettingUp, StartupEvent::Written) => Startup::ClearingEvents,
            (Startup::ClearingEvents, StartupEvent::Written) => Startup::ReadingId,
            (Startup::ReadingId, StartupEvent::Transferred(rx)) => {
                let value = MagnoSensor::new().verify_who_am_i(rx);
                match MagnoSensor::check_who_am_i(value) {
                    Ok(()) => Startup::Configuring,
                    Err(e) => Startup::Done(Err(e)),
                }
            },
            (Startup::Configuring, StartupEvent::Transferred(rx)) => match rx {
                Ok(_) => Startup::Done(Ok(())),
                Err(e) => Startup::Done(Err(InitError::ConfigWrite(e))),
            },
            (s, _) => s,
        };
        let a = next.action();
        (next, a)
    }
}

/// How far the start-up has come: freeing the bus, setting up, clearing the
/// events, reading the identification, configuring, over.
pub open spec fn startup_phase(s: Startup) -> int {
    match s {
        Startup::PreparingBusClear => 0,
        Startup::CheckingLine(_) => 1,
        Startup::Pulsing(_) => 1,
        Startup::SettingUp => 2,
        Startup::ClearingEvents => 3,
        Startup::ReadingId => 4,
        Startup::Configuring => 5,
        Startup::Done(_) => 6,
    }
}

/// Whether the clock pulse count of a state stays below nine.
pub open spec fn startup_pulses_bounded(s: Startup) -> bool {
    match s {
        Startup::CheckingLine(p) => p < BUS_CLEAR_PULSES,
        Startup::Pulsing(p) => p < BUS_CLEAR_PULSES,
        _ => true,
    }
}

/// The start-up never goes back to an earlier phase, and the clock pulses
/// of the bus clearing stay below nine in every state it reaches.
pub proof fn lemma_startup_moves_forward(s: Startup, e: StartupEvent)
    ensures
        startup_phase(startup_step(s, e)) >= startup_phase(s),
        startup_pulses_bounded(s) ==> startup_pulses_bounded(startup_step(s, e)),
        startup_pulses_bounded(Startup::PreparingBusClear),
{
}

/// The configuration write is asked for only right after an identification
/// read that gave 64.
pub proof fn lemma_configure_only_after_good_id(s: Startup, e: StartupEvent)
    requires
        startup_step(s, e) == Startup::Configuring,
        s != Startup::Configuring,
    ensures
        s == Startup::ReadingId,
        e matches StartupEvent::Transferred(Ok(buf)) && buf[0] == WHO_AM_I_VALUE,
{
}

/// The start-up succeeds only when the configuration write goes through,
/// and it fails only on a bus error or another byte in the identification
/// read, or on a failed configuration write.
pub proof fn lemma_startup_outcomes(s: Startup, e: StartupEvent)
    requires
        s !is Done,
        startup_step(s, e) is Done,
    ensures
        startup_step(s, e) == Startup::Done(Ok(())) ==> s == Startup::Configuring && (
        e matches StartupEvent::Transferred(Ok(_))),
        startup_step(s, e) matches Startup::Done(Err(err)) ==> match err {
            InitError::Bus(code) => s == Startup::ReadingId && e == StartupEvent::Transferred(
                Err(code),
            ),
            InitError::WrongWhoAmI(id) => s == Startup::ReadingId && id != WHO_AM_I_VALUE && (
            e matches StartupEvent::Transferred(Ok(buf)) && buf[0] == id),
            InitError::ConfigWrite(code) => s == Startup::Configuring && e
                == StartupEvent::Transferred(Err(code)),
        },
{
}

/// Once over, the start-up stays over with the same outcome.
pub proof fn lemma_startup_done_stays(r: Result<(), InitError>, e: StartupEvent)
    ensures
        startup_step(Startup::Done(r), e) == Startup::Done(r),
{
}

/// The state that the start-up reaches from `s` through `events`.
pub open spec fn startup_run(s: Startup, events: Seq<StartupEvent>) -> Startup
    decreases events.len(),
{
    if events.len() == 0 {
        s
    } else {
        startup_run(startup_step(s, events[0]), events.drop_first())
    }
}

/// Whether an event is an identification read that gave 64.
pub open spec fn is_good_id_read(e: StartupEvent) -> bool {
    e matches StartupEvent::Transferred(Ok(buf)) && buf[0] == WHO_AM_I_VALUE
}

/// A run over a prefix of one more event is one step, then a run over the
/// rest's prefix.
proof fn lemma_run_take_succ(s: Startup, events: Seq<StartupEvent>, k: int)
    requires
        0 <= k < events.len(),
    ensures
        startup_run(s, events.take(k + 1)) == startup_run(
            startup_step(s, events[0]),
            events.drop_first().take(k),
        ),
{
    assert(events.take(k + 1).drop_first() =~= events.drop_first().take(k));
    assert(events.take(k + 1)[0] == events[0]);
}

/// A finished start-up stays finished with the same outcome.
proof fn lemma_run_done_stays(r: Result<(), InitError>, events: Seq<StartupEvent>)
    ensures
        startup_run(Startup::Done(r), events) == Startup::Done(r),
    decreases events.len(),
{
    if events.len() > 0 {
        lemma_run_done_stays(r, events.drop_first());
    }
}

/// From the configuration write, success comes only through a transfer that
/// went through while the start-up waited for it.
proof fn lemma_run_success_from_configuring(events: Seq<StartupEvent>)
    requires
        startup_run(Startup::Configuring, events) == Startup::Done(Ok(())),
    ensures
        exists|j: int|
            0 <= j < events.len() && startup_run(Startup::Configuring, #[trigger] events.take(j))
                == Startup::Configuring && events[j] matches StartupEvent::Transferred(Ok(_)),
    decreases events.len(),
{
    assert(events.len() > 0);
    let s1 = startup_step(Startup::Configuring, events[0]);
    assert(events.take(0) =~= Seq::<StartupEvent>::empty());
    if s1 == Startup::Configuring {
        lemma_run_success_from_configuring(events.drop_first());
        let j = choose|j: int|
            0 <= j < events.drop_first().len() && startup_run(
                Startup::Configuring,
                #[trigger] events.drop_first().take(j),
            ) == Startup::Configuring && events.drop_first()[j] matches StartupEvent::Transferred(
                Ok(_),
            );
        lemma_run_take_succ(Startup::Configuring, events, j);
        assert(startup_run(Startup::Configuring, events.take(j + 1)) == Startup::Configuring);
    } else {
        let r = choose|r: Result<(), InitError>| s1 == Startup::Done(r);
        lemma_run_done_stays(r, events.drop_first());
    }
}

/// A start-up that ends well went, in this order, through an identification
/// read that gave 64 and a configuration write that went through, each
/// made while the start-up waited for it.
pub proof fn lemma_success_follows_checks(s: Startup, events: Seq<StartupEvent>)
    requires
        startup_phase(s) <= 4,
        startup_run(s, events) == Startup::Done(Ok(())),
    ensures
        exists|i: int, j: int|
            0 <= i < j < events.len() && startup_run(s, #[trigger] events.take(i))
                == Startup::ReadingId && is_good_id_read(events[i]) && startup_run(
                s,
                #[trigger] events.take(j),
            ) == Startup::Configuring && events[j] matches StartupEvent::Transferred(Ok(_)),
    decreases events.len(),
{
    if events.len() == 0 {
        assert(startup_run(s, events) == s);
    } else {
        let s1 = startup_step(s, events[0]);
        let rest = events.drop_first();
        lemma_startup_moves_forward(s, events[0]);
        if startup_phase(s1) <= 4 {
            lemma_success_follows_checks(s1, rest);
            let (i, j) = choose|i: int, j: int|
                0 <= i < j < rest.len() && startup_run(s1, #[trigger] rest.take(i))
                    == Startup::ReadingId && is_good_id_read(rest[i]) && startup_run(
                    s1,
                    #[trigger] rest.take(j),
                ) == Startup::Configuring && rest[j] matches StartupEvent::Transferred(Ok(_));
            lemma_run_take_succ(s, events, i);
            lemma_run_take_succ(s, events, j);
            assert(startup_run(s, events.take(i + 1)) == Startup::ReadingId);
            assert(startup_run(s, events.take(j + 1)) == Startup::Configuring);
        } else if startup_phase(s1) == 5 {
            lemma_configure_only_after_good_id(s, events[0]);
            lemma_run_success_from_configuring(rest);
            let j = choose|j: int|
                0 <= j < rest.len() && startup_run(Startup::Configuring, #[trigger] rest.take(j))
                    == Startup::Configuring && rest[j] matches StartupEvent::Transferred(Ok(_));
            lemma_run_take_succ(s, events, j);
            assert(events.take(0) =~= Seq::<StartupEvent>::empty());
            assert(startup_run(s, events.take(0)) == Startup::ReadingId);
            assert(startup_run(s, events.take(j + 1)) == Startup::Configuring);
        } else {
            let r = choose|r: Result<(), InitError>| s1 == Startup::Done(r);
            lemma_run_done_stays(r, rest);
            lemma_startup_outcomes(s, events[0]);
        }
    }
}

/// The start-up configuration of the register-level driver is the one the
/// bus driver writes for 100 Hz continuous mode without any flag.
pub proof fn lemma_default_config_agrees()
    ensures
        config_register_value(
            false,
            false,
            false,
            false,
            OutputRate::Hz100,
            SystemMode::Continuous,
        ) == 12,
{
}

} // verus!
