use std::cell::RefCell;
use std::rc::Rc;

use microbit_kit::magno::{
    config_outcome, config_request, config_value, field_outcome, field_request, who_am_i_outcome, i16_from_le_bytes, who_am_i_request, who_am_i_matches, I2cBus, MagnoAxis, Magnetometer,
    OutputRate, SystemMode,
};

/// A bus that answers reads with fixed bytes and records writes.
struct MockBus {
    reply: Vec<u8>,
    fail: bool,
    writes: Rc<RefCell<Vec<(u8, Vec<u8>)>>>,
}

impl I2cBus for MockBus {
    type Error = &'static str;

    fn write(&mut self, address: u8, bytes: &[u8]) -> Result<(), Self::Error> {
        if self.fail {
            return Err("nack");
        }
        self.writes.borrow_mut().push((address, bytes.to_vec()));
        Ok(())
    }

    fn write_read(&mut self, address: u8, bytes: &[u8], buffer: &mut [u8]) -> Result<(), Self::Error> {
        if self.fail {
            return Err("nack");
        }
        self.writes.borrow_mut().push((address, bytes.to_vec()));
        buffer.copy_from_slice(&self.reply[..buffer.len()]);
        Ok(())
    }
}

fn bus(reply: Vec<u8>, fail: bool) -> MockBus {
    MockBus { reply, fail, writes: Rc::new(RefCell::new(Vec::new())) }
}

#[test]
fn who_am_i_answers() {
    let b = bus(vec![64], false);
    let log = b.writes.clone();
    let mut m = Magnetometer::new(b);
    assert_eq!(m.verify_who_am_i(), Ok(true));
    assert_eq!(*log.borrow(), vec![(0x1E, vec![0x4F])]);
    let mut m = Magnetometer::new(bus(vec![0x33], false));
    assert_eq!(m.verify_who_am_i(), Ok(false));
    let mut m = Magnetometer::new(bus(vec![64], true));
    assert_eq!(m.verify_who_am_i(), Err("nack"));
    assert!(who_am_i_matches(64));
    assert!(!who_am_i_matches(65));
}

#[test]
fn config_register_layout() {
    assert_eq!(config_value(false, false, false, false, &OutputRate::Hz10, &SystemMode::Continuous), 0);
    assert_eq!(config_value(false, false, false, false, &OutputRate::Hz100, &SystemMode::Continuous), 12);
    assert_eq!(config_value(true, false, false, false, &OutputRate::Hz50, &SystemMode::Single), 134);
    assert_eq!(config_value(true, true, true, true, &OutputRate::Hz100, &SystemMode::Idle), 255);
    assert_eq!(config_value(false, true, false, true, &OutputRate::Hz20, &SystemMode::Idle), 0b0101_1011);
}

#[test]
fn set_config_writes_register_a() {
    let b = bus(vec![], false);
    let log = b.writes.clone();
    let m = Magnetometer::new(b);
    assert!(m.set_config(false, false, true, false, OutputRate::Hz20, SystemMode::Single).is_ok());
    // soft reset (bit 5), ODR1 (bit 3), MD1 (bit 1)
    assert_eq!(*log.borrow(), vec![(0x1E, vec![0x60, 0b0010_1010])]);
    let m = Magnetometer::new(bus(vec![], true));
    assert!(m.set_config(false, false, false, false, OutputRate::Hz10, SystemMode::Idle).is_err());
}

#[test]
fn odr_and_md_bits() {
    assert_eq!(OutputRate::Hz10.to_odr_value(), (0, 0));
    assert_eq!(OutputRate::Hz20.to_odr_value(), (0, 1));
    assert_eq!(OutputRate::Hz50.to_odr_value(), (1, 0));
    assert_eq!(OutputRate::Hz100.to_odr_value(), (1, 1));
    assert_eq!(SystemMode::Continuous.to_md_value(), (0, 0));
    assert_eq!(SystemMode::Single.to_md_value(), (0, 1));
    assert_eq!(SystemMode::Idle.to_md_value(), (1, 1));
}

#[test]
fn field_conversion() {
    let b = bus(vec![0x10, 0x00, 0xFF, 0xFF, 0x00, 0x80], false);
    let log = b.writes.clone();
    let mut m = Magnetometer::new(b);
    let axis = m.get_magnometer_value().ok().unwrap();
    assert_eq!(*log.borrow(), vec![(0x1E, vec![0xE8])]);
    assert_eq!(axis, MagnoAxis { x: 2400, y: -150, z: -4_915_200 });
    let mut m = Magnetometer::new(bus(vec![0; 6], true));
    assert!(m.get_magnometer_value().is_err());
}

#[test]
fn le_bytes() {
    assert_eq!(i16_from_le_bytes(0x34, 0x12), 0x1234);
    assert_eq!(i16_from_le_bytes(0xFF, 0x7F), i16::MAX);
    assert_eq!(i16_from_le_bytes(0x00, 0x80), i16::MIN);
    assert_eq!(i16_from_le_bytes(0xFE, 0xFF), -2);
    assert_eq!(MagnoAxis::from_raw(&[1, 0, 2, 0, 3, 0]), MagnoAxis { x: 150, y: 300, z: 450 });
    assert_eq!(MagnoAxis::default(), MagnoAxis { x: 0, y: 0, z: 0 });
}

#[test]
fn bus_requests() {
    assert_eq!(who_am_i_request(), [0x4F]);
    assert_eq!(field_request(), [0xE8]);
    assert_eq!(config_request(false, true, false, false, &OutputRate::Hz10, &SystemMode::Idle), [0x60, 0x43]);
}

#[test]
fn bus_outcomes() {
    assert_eq!(who_am_i_outcome::<u8>(Ok([64])), Ok(true));
    assert_eq!(who_am_i_outcome::<u8>(Ok([0])), Ok(false));
    assert_eq!(who_am_i_outcome::<u8>(Err(9)), Err(9));
    assert_eq!(field_outcome::<u8>(Ok([0, 1, 0, 0, 0, 0])), Ok(MagnoAxis { x: 38400, y: 0, z: 0 }));
    assert_eq!(field_outcome::<u8>(Err(2)), Err(2));
}

#[test]
fn config_outcome_hands_driver_or_error_back() {
    assert_eq!(config_outcome::<u8, u32>(7, Ok(())), Ok(7));
    assert_eq!(config_outcome::<u8, u32>(7, Err(0x20)), Err(0x20));
}

#[test]
fn set_config_default_settings_and_bus_error() {
    let b = bus(vec![], false);
    let log = b.writes.clone();
    let m = Magnetometer::new(b);
    // temperature compensation 0x80, low power 0x10, 100 Hz 0x0C, continuous 0x00
    assert!(m.set_config(true, false, false, true, OutputRate::Hz100, SystemMode::Continuous).is_ok());
    assert_eq!(*log.borrow(), vec![(0x1E, vec![0x60, 0x9C])]);
    let m = Magnetometer::new(bus(vec![], true));
    match m.set_config(true, false, false, true, OutputRate::Hz100, SystemMode::Continuous) {
        Err(e) => assert_eq!(e, "nack"),
        Ok(_) => panic!("a failed write must give the bus error"),
    }
}
