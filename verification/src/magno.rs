//! The LSM303AGR magnetometer on the micro:bit's internal I2C bus: its
//! register addresses, the value of its configuration register A, the
//! conversion of its output registers to nanotesla, and a driver that works
//! over any I2C bus.
use vstd::prelude::*;

verus! {

/// The magnetometer's 7-bit I2C address.
pub const MAGNO_SLAVE_ADDRESS: u8 = 0x1E;

/// The identification register.
pub const WHO_AM_I_M: u8 = 0x4F;

/// The value that the identification register holds.
pub const WHO_AM_I_VALUE: u8 = 64;

/// Configuration register A (CFG_REG_A_M).
pub const MAGNO_CONF_A: u8 = 0x60;

/// The status register (STATUS_REG_M).
pub const MAGNO_STATUS: u8 = 0x67;

/// Bit 3 of the status register: new X, Y and Z data are ready.
pub const STATUS_ZYXDA: u8 = 0x08;

/// The flag that makes the register address advance after each byte.
pub const AUTO_INCREMENT: u8 = 0x80;

/// The low byte of the X output (OUTX_L_REG_M); Y and Z follow.
pub const MAGNO_X_L: u8 = 0x68;

/// Nanotesla per least significant bit of the output registers.
pub const SENSITIVITY: i32 = 150;

/// A magnetic field reading in nanotesla.
#[derive(Clone, Copy, Debug, PartialEq, Eq, Structural)]
pub struct MagnoAxis {
    pub x: i32,
    pub y: i32,
    pub z: i32,
}

impl Default for MagnoAxis {
    fn default() -> (r: MagnoAxis)
        ensures
            r == (MagnoAxis { x: 0, y: 0, z: 0 }),
    {
        MagnoAxis { x: 0, y: 0, z: 0 }
    }
}

/// The magnetometer's output data rate.
#[derive(Clone, Copy, Debug, PartialEq, Eq, Structural)]
pub enum OutputRate {
    Hz10,
    Hz20,
    Hz50,
    Hz100,
}

/// The magnetometer's system mode.
#[derive(Clone, Copy, Debug, PartialEq, Eq, Structural)]
pub enum SystemMode {
    Continuous,
    Single,
    Idle,
}

/// The (ODR0, ODR1) bits of a rate.
pub open spec fn odr_bits(odr: OutputRate) -> (u8, u8) {
    match odr {
        OutputRate::Hz10 => (0, 0),
        OutputRate::Hz20 => (0, 1),
        OutputRate::Hz50 => (1, 0),
        OutputRate::Hz100 => (1, 1),
    }
}

/// The (MD0, MD1) bits of a mode.
pub open spec fn md_bits(md: SystemMode) -> (u8, u8) {
    match md {
        SystemMode::Continuous => (0, 0),
        SystemMode::Single => (0, 1),
        SystemMode::Idle => (1, 1),
    }
}

/// 1 for true, 0 for false.
pub open spec fn bit(b: bool) -> int {
    if b {
        1
    } else {
        0
    }
}

/// The value of configuration register A: MD0 in bit 0, MD1 in bit 1, ODR0
/// in bit 2, ODR1 in bit 3, then low power, soft reset, reboot and
/// temperature compensation in bits 4 to 7.
pub open spec fn config_register_value(
    temperature_compensation: bool,
    reboot: bool,
    soft_reset: bool,
    low_power: bool,
    odr: OutputRate,
    md: SystemMode,
) -> int {
    md_bits(md).0 + 2 * md_bits(md).1 + 4 * odr_bits(odr).0 + 8 * odr_bits(odr).1 + 16 * bit(
        low_power,
    ) + 32 * bit(soft_reset) + 64 * bit(reboot) + 128 * bit(temperature_compensation)
}

/// The signed 16-bit value of two little-endian bytes.
pub open spec fn le_i16(lo: u8, hi: u8) -> int {
    let v = hi * 256 + lo;
    if v >= 32768 {
        v - 65536
    } else {
        v
    }
}

/// The field that six output bytes (X, Y, Z, each low byte first) describe.
pub open spec fn axis_of(raw: Seq<u8>) -> MagnoAxis {
    MagnoAxis {
        x: (le_i16(raw[0], raw[1]) * SENSITIVITY) as i32,
        y: (le_i16(raw[2], raw[3]) * SENSITIVITY) as i32,
        z: (le_i16(raw[4], raw[5]) * SENSITIVITY) as i32,
    }
}

impl OutputRate {
    /// The (ODR0, ODR1) bits of the rate.
    pub fn to_odr_value(&self) -> (r: (u8, u8))
        ensures
            r == odr_bits(*self),
    {
        match self {
            OutputRate::Hz10 => (0, 0),
            OutputRate::Hz20 => (0, 1),
            OutputRate::Hz50 => (1, 0),
            OutputRate::Hz100 => (1, 1),
        }
    }
}

impl SystemMode {
    /// The (MD0, MD1) bits of the mode.
    pub fn to_md_value(&self) -> (r: (u8, u8))
        ensures
            r == md_bits(*self),
    {
        match self {
            SystemMode::Continuous => (0, 0),
            SystemMode::Single => (0, 1),
            SystemMode::Idle => (1, 1),
        }
    }
}

/// Eight one-bit values put side by side are their weighted sum.
proof fn lemma_pack_bits(b0: u8, b1: u8, b2: u8, b3: u8, b4: u8, b5: u8, b6: u8, b7: u8)
    by (bit_vector)
    requires
        b0 <= 1,
        b1 <= 1,
        b2 <= 1,
        b3 <= 1,
        b4 <= 1,
        b5 <= 1,
        b6 <= 1,
        b7 <= 1,
    ensures
        b0 | (b1 << 1u8) | (b2 << 2u8) | (b3 << 3u8) | (b4 << 4u8) | (b5 << 5u8) | (b6 << 6u8) | (
        b7 << 7u8) == b0 + 2 * b1 + 4 * b2 + 8 * b3 + 16 * b4 + 32 * b5 + 64 * b6 + 128 * b7,
{
}

/// The value of configuration register A for the given settings.
pub fn config_value(
    temperature_compensation: bool,
    reboot: bool,
    soft_reset: bool,
    low_power: bool,
    odr: &OutputRate,
    md: &SystemMode,
) -> (r: u8)
    ensures
        r == config_register_value(
            temperature_compensation,
            reboot,
            soft_reset,
            low_power,
            *odr,
            *md,
        ),
{
    let temp_comp_bit: u8 = if temperature_compensation {
        1
    } else {
        0
    };
    let reboot_bit: u8 = if reboot {
        1
    } else {
        0
    };
    let soft_reset_bit: u8 = if soft_reset {
        1
    } else {
        0
    };
    let low_power_bit: u8 = if low_power {
        1
    } else {
        0
    };
    let (odr0, odr1) = odr.to_odr_value();
    let (md0, md1) = md.to_md_value();
    proof {
        lemma_pack_bits(
            md0,
            md1,
            odr0,
            odr1,
            low_power_bit,
            soft_reset_bit,
            reboot_bit,
            temp_comp_bit,
        );
    }
    md0 | (md1 << 1u8) | (odr0 << 2u8) | (odr1 << 3u8) | (low_power_bit << 4u8) | (soft_reset_bit
        << 5u8) | (reboot_bit << 6u8) | (temp_comp_bit << 7u8)
}

/// Each setting reads back from its own bit of configuration register A.
pub proof fn lemma_config_bits(
    temperature_compensation: bool,
    reboot: bool,
    soft_reset: bool,
    low_power: bool,
    odr: OutputRate,
    md: SystemMode,
)
    ensures
        ({
            let v = config_register_value(
                temperature_compensation,
                reboot,
                soft_reset,
                low_power,
                odr,
                md,
            );
            &&& 0 <= v < 256
            &&& v % 2 == md_bits(md).0
            &&& (v / 2) % 2 == md_bits(md).1
            &&& (v / 4) % 2 == odr_bits(odr).0
            &&& (v / 8) % 2 == odr_bits(odr).1
            &&& (v / 16) % 2 == bit(low_power)
            &&& (v / 32) % 2 == bit(soft_reset)
            &&& (v / 64) % 2 == bit(reboot)
            &&& v / 128 == bit(temperature_compensation)
        }),
{
}

/// `i16::from_le_bytes([lo, hi])`.
pub fn i16_from_le_bytes(lo: u8, hi: u8) -> (r: i16)
    ensures
        r == le_i16(lo, hi),
{
    let v: i32 = (hi as i32) * 256 + (lo as i32);
    if v >= 32768 {
        (v - 65536) as i16
    } else {
        v as i16
    }
}

impl MagnoAxis {
    /// The field that six output bytes (X, Y, Z, each low byte first)
    /// describe, scaled to nanotesla.
    pub fn from_raw(raw: &[u8; 6]) -> (r: MagnoAxis)
        ensures
            r == axis_of(raw@),
    {
        let x_value = i16_from_le_bytes(raw[0], raw[1]) as i32 * SENSITIVITY;
        let y_value = i16_from_le_bytes(raw[2], raw[3]) as i32 * SENSITIVITY;
        let z_value = i16_from_le_bytes(raw[4], raw[5]) as i32 * SENSITIVITY;
        MagnoAxis { x: x_value, y: y_value, z: z_value }
    }
}

/// Whether an identification byte is the magnetometer's.
pub fn who_am_i_matches(id: u8) -> (r: bool)
    ensures
        r == (id == WHO_AM_I_VALUE),
{
    id == WHO_AM_I_VALUE
}

/// The bytes that read the identification register: its address.
pub fn who_am_i_request() -> (r: [u8; 1])
    ensures
        r@ == seq![WHO_AM_I_M],
{
    let r = [WHO_AM_I_M];
    assert(r@ =~= seq![WHO_AM_I_M]);
    r
}

/// The bytes that write configuration register A: its address, then the
/// value for the given settings.
pub fn config_request(
    temperature_compensation: bool,
    reboot: bool,
    soft_reset: bool,
    low_power: bool,
    odr: &OutputRate,
    md: &SystemMode,
) -> (r: [u8; 2])
    ensures
        r[0] == MAGNO_CONF_A,
        r[1] == config_register_value(
            temperature_compensation,
            reboot,
            soft_reset,
            low_power,
            *odr,
            *md,
        ),
{
    let bit_value = config_value(temperature_compensation, reboot, soft_reset, low_power, odr, md);
    [MAGNO_CONF_A, bit_value]
}

/// The bytes that read the six output registers in one transaction: the
/// address of the first with the auto-increment flag.
pub fn field_request() -> (r: [u8; 1])
    ensures
        r@ == seq![0xE8u8],
{
    assert(MAGNO_X_L | AUTO_INCREMENT == 0xE8u8) by (bit_vector);
    let r = [MAGNO_X_L | AUTO_INCREMENT];
    assert(r@ =~= seq![0xE8u8]);
    r
}

/// What the identification read gives: whether the byte read is the
/// magnetometer's, or the bus error.
pub fn who_am_i_outcome<E>(rx: Result<[u8; 1], E>) -> (r: Result<bool, E>)
    ensures
        match rx {
            Ok(buf) => r == Ok::<bool, E>(buf[0] == WHO_AM_I_VALUE),
            Err(e) => r == Err::<bool, E>(e),
        },
{
    match rx {
        Ok(buf) => Ok(who_am_i_matches(buf[0])),
        Err(e) => Err(e),
    }
}

/// What the configuration write gives: the driver, handed back, once the
/// write went through; the bus error otherwise.
pub fn config_outcome<T, E>(driver: T, written: Result<(), E>) -> (r: Result<T, E>)
    ensures
        match written {
            Ok(()) => r == Ok::<T, E>(driver),
            Err(e) => r == Err::<T, E>(e),
        },
{
    match written {
        Ok(()) => Ok(driver),
        Err(e) => Err(e),
    }
}

/// What the six-byte output read gives: the field in nanotesla, or the bus
/// error.
pub fn field_outcome<E>(rx: Result<[u8; 6], E>) -> (r: Result<MagnoAxis, E>)
    ensures
        match rx {
            Ok(buf) => r == Ok::<MagnoAxis, E>(axis_of(buf@)),
            Err(e) => r == Err::<MagnoAxis, E>(e),
        },
{
    match rx {
        Ok(buf) => Ok(MagnoAxis::from_raw(&buf)),
        Err(e) => Err(e),
    }
}

/// An I2C bus controller as the magnetometer driver uses it: a write, and a
/// write followed by a read in one transaction. Implementations stand for
/// the board's I2C peripheral.
pub trait I2cBus {
    type Error;

    /// The transactions made on the bus so far, oldest first: the device
    /// address, the bytes sent, and the bytes received (none for a write).
    /// An implementation verified here defines it; to a driver generic over
    /// the bus it is unknown but for what `write` and `write_read` state. The
    /// body below only lets implementations outside Verus leave it out.
    closed spec fn transactions(&self) -> Seq<(u8, Seq<u8>, Seq<u8>)> {
        Seq::empty()
    }

    /// Writes `bytes` to the device at `address`: one more transaction.
    fn write(&mut self, address: u8, bytes: &[u8]) -> (r: Result<(), Self::Error>)
        ensures
            final(self).transactions() == old(self).transactions().push(
                (address, bytes@, Seq::<u8>::empty()),
            ),
    ;

    /// Writes `bytes` to the device at `address`, then reads as many bytes
    /// as `buffer` holds into it: one more transaction, which received what
    /// `buffer` holds afterwards.
    fn write_read(&mut self, address: u8, bytes: &[u8], buffer: &mut [u8]) -> (r: Result<
        (),
        Self::Error,
    >)
        ensures
            final(buffer)@.len() == old(buffer)@.len(),
            final(self).transactions() == old(self).transactions().push(
                (address, bytes@, final(buffer)@),
            ),
    ;
}

/// The magnetometer behind an I2C bus.
pub struct Magnetometer<I2C> {
    i2c: I2C,
}

impl<I2C: I2cBus> Magnetometer<I2C> {
    /// The bus that the driver uses.
    pub closed spec fn bus(&self) -> I2C {
        self.i2c
    }

    /// A driver for the magnetometer on `i2c`.
    pub fn new(i2c: I2C) -> (r: Self)
        ensures
            r.bus() == i2c,
    {
        Self { i2c }
    }

    /// The transactions of the bus after those it had.
    pub open spec fn one_more(
        &self,
        before: Seq<(u8, Seq<u8>, Seq<u8>)>,
        address: u8,
        sent: Seq<u8>,
        received_len: nat,
    ) -> bool {
        let after = self.bus().transactions();
        &&& after.len() == before.len() + 1
        &&& after.drop_last() == before
        &&& after.last().0 == address
        &&& after.last().1 == sent
        &&& after.last().2.len() == received_len
    }

    /// The bytes that the bus's last transaction received.
    pub open spec fn last_received(&self) -> Seq<u8> {
        self.bus().transactions().last().2
    }

    /// Reads the identification register (one write-then-read of 0x4F at
    /// the magnetometer's address) and tells whether the byte received is
    /// the magnetometer's value (64). A bus error is handed back.
    pub fn verify_who_am_i(&mut self) -> (r: Result<bool, I2C::Error>)
        ensures
            final(self).one_more(
                old(self).bus().transactions(),
                MAGNO_SLAVE_ADDRESS,
                seq![WHO_AM_I_M],
                1,
            ),
            r matches Ok(b) ==> b == (final(self).last_received()[0] == WHO_AM_I_VALUE),
    {
        let mut rx_buf = [0u8; 1];
        let tx_buf = who_am_i_request();
        let written = self.i2c.write_read(MAGNO_SLAVE_ADDRESS, &tx_buf, &mut rx_buf);
        let rx = match written {
            Ok(()) => Ok(rx_buf),
            Err(e) => Err(e),
        };
        proof {
            assert(self.bus().transactions().drop_last() =~= old(self).bus().transactions());
        }
        who_am_i_outcome(rx)
    }

    /// Writes configuration register A with the given settings (one write
    /// of 0x60 and the register's value at the magnetometer's address), and
    /// hands the driver back; a bus error is handed back instead.
    pub fn set_config(
        self,
        temperature_compensation: bool,
        reboot: bool,
        soft_reset: bool,
        low_power: bool,
        odr: OutputRate,
        md: SystemMode,
    ) -> (r: Result<Self, I2C::Error>)
        ensures
            r matches Ok(d) ==> d.bus().transactions() == self.bus().transactions().push(
                (
                    MAGNO_SLAVE_ADDRESS,
                    seq![
                        MAGNO_CONF_A,
                        config_register_value(
                            temperature_compensation,
                            reboot,
                            soft_reset,
                            low_power,
                            odr,
                            md,
                        ) as u8,
                    ],
                    Seq::<u8>::empty(),
                ),
            ),
    {
        let mut this = self;
        let tx_buf = config_request(
            temperature_compensation,
            reboot,
            soft_reset,
            low_power,
            &odr,
            &md,
        );
        assert(tx_buf@ =~= seq![
            MAGNO_CONF_A,
            config_register_value(
                temperature_compensation,
                reboot,
                soft_reset,
                low_power,
                odr,
                md,
            ) as u8,
        ]);
        let written = this.i2c.write(MAGNO_SLAVE_ADDRESS, &tx_buf);
        config_outcome(this, written)
    }

    /// Reads the six output registers in one write-then-read (0xE8: the
    /// first with the auto-increment flag) and converts the bytes received
    /// to nanotesla. A bus error is handed back.
    pub fn get_magnometer_value(&mut self) -> (r: Result<MagnoAxis, I2C::Error>)
        ensures
            final(self).one_more(old(self).bus().transactions(), MAGNO_SLAVE_ADDRESS, seq![0xE8u8], 6),
            r matches Ok(axis) ==> axis == axis_of(final(self).last_received()),
    {
        let mut rx_buf = [0u8; 6];
        let tx_buf = field_request();
        let written = self.i2c.write_read(MAGNO_SLAVE_ADDRESS, &tx_buf, &mut rx_buf);
        let rx = match written {
            Ok(()) => Ok(rx_buf),
            Err(e) => Err(e),
        };
        proof {
            assert(self.bus().transactions().drop_last() =~= old(self).bus().transactions());
        }
        field_outcome(rx)
    }
}

} // verus!
