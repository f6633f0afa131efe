use microbit_kit::magno::MagnoAxis;
use microbit_kit::twim::{
    pin_select, InitError, MagnoSensor, Reg, Startup, StartupAction, StartupEvent, StopWait,
    TwimTransfer, FREQUENCY_K100,
    PIN_CNF_VALUE, SHORTS_WRITE, SHORTS_WRITE_READ,
};

#[test]
fn register_addresses() {
    assert_eq!(Reg::TasksStartTx.address(), 0x4000_3008);
    assert_eq!(Reg::EventsStopped.address(), 0x4000_3104);
    assert_eq!(Reg::EventsError.address(), 0x4000_3124);
    assert_eq!(Reg::ErrorSrc.address(), 0x4000_34C4);
    assert_eq!(Reg::TxdMaxcnt.address(), 0x4000_3548);
    assert_eq!(Reg::Address.address(), 0x4000_3588);
    assert_eq!(Reg::PinCnfScl.address(), 0x5000_0720);
    assert_eq!(Reg::PinCnfSda.address(), 0x5000_0740);
    assert_eq!(Reg::GpioteConfig0.address(), 0x4000_6510);
}

#[test]
fn pin_select_values() {
    assert_eq!(pin_select(8, 0, 0), 8);
    assert_eq!(pin_select(16, 0, 0), 16);
    assert_eq!(pin_select(16, 1, 1), 0x8000_0000 + 32 + 16);
    assert_eq!(PIN_CNF_VALUE, 0x60C);
}

#[test]
fn read_transfer() {
    let t = TwimTransfer::new(0x4F, None, 1);
    assert_eq!(t.tx_buf, [0x4F, 0]);
    assert_eq!(t.tx_len, 1);
    assert_eq!(t.rx_len, 1);
    assert_eq!(t.shorts, 4224);
    assert_eq!(SHORTS_WRITE_READ, 4224);
    assert_eq!(
        t.start_writes(),
        vec![(Reg::TxdMaxcnt, 1), (Reg::RxdMaxcnt, 1), (Reg::Shorts, 4224), (Reg::TasksStartTx, 1)]
    );
}

#[test]
fn write_transfer() {
    let t = TwimTransfer::new(0x60, Some(12), 0);
    assert_eq!(t.tx_buf, [0x60, 12]);
    assert_eq!(t.tx_len, 2);
    assert_eq!(t.rx_len, 0);
    assert_eq!(t.shorts, 512);
    assert_eq!(SHORTS_WRITE, 512);
    let sensor = MagnoSensor::new();
    assert_eq!(sensor.set_default_magno(), t);
    assert_eq!(MagnoSensor::default_magno_value(), 12);
}

#[test]
fn named_transfers() {
    assert_eq!(MagnoSensor::verify_who_am_i_transfer(), TwimTransfer::new(0x4F, None, 1));
    assert_eq!(MagnoSensor::status_transfer(), TwimTransfer::new(0x67, None, 1));
    assert_eq!(MagnoSensor::field_transfer(), TwimTransfer::new(0xE8, None, 6));
}

#[test]
fn wait_succeeds_on_stopped() {
    let mut w = StopWait::AwaitStopped;
    assert_eq!(w.register_to_read(), Some(Reg::EventsStopped));
    let (n, write) = w.on_read(0);
    assert_eq!((n, write), (StopWait::AwaitErrorEvent, None));
    w = n;
    assert_eq!(w.register_to_read(), Some(Reg::EventsError));
    let (n, write) = w.on_read(0);
    assert_eq!((n, write), (StopWait::AwaitStopped, None));
    w = n;
    let (n, _) = w.on_read(1);
    assert_eq!(n, StopWait::Done(Ok(())));
    assert_eq!(n.register_to_read(), None);
}

#[test]
fn wait_reports_error_source() {
    let (w, write) = StopWait::AwaitStopped.on_read(0);
    assert_eq!(write, None);
    let (w, write) = w.on_read(1);
    assert_eq!(w, StopWait::AwaitErrorSource);
    assert_eq!(write, Some((Reg::EventsError, 0)));
    assert_eq!(w.register_to_read(), Some(Reg::ErrorSrc));
    let (w, write) = w.on_read(2);
    assert_eq!(w, StopWait::Done(Err(2)));
    assert_eq!(write, Some((Reg::ErrorSrc, 0)));
    let (w, write) = StopWait::AwaitErrorSource.on_read(0);
    assert_eq!(w, StopWait::Done(Err(0)));
    assert_eq!(write, None);
}

#[test]
fn bus_setup_sequences() {
    assert_eq!(MagnoSensor::bus_clear_setup(), vec![(Reg::PinCnfScl, 1), (Reg::PinCnfSda, 12)]);
    assert_eq!(MagnoSensor::bus_clear_pulse(), [(Reg::PselSda, 256), (Reg::PselScl, 256)]);
    assert!(MagnoSensor::bus_released(0x1_0000));
    assert!(MagnoSensor::bus_released(0xFFFF_FFFF));
    assert!(!MagnoSensor::bus_released(0xFFFE_FFFF));
    assert_eq!(
        MagnoSensor::setup_writes(),
        vec![
            (Reg::PinCnfScl, PIN_CNF_VALUE),
            (Reg::PinCnfSda, PIN_CNF_VALUE),
            (Reg::PselScl, 8),
            (Reg::PselSda, 16),
            (Reg::Frequency, FREQUENCY_K100),
            (Reg::Address, 0x1E),
            (Reg::Enable, 6),
        ]
    );
    assert_eq!(
        MagnoSensor::clear_events(),
        vec![
            (Reg::EventsLastTx, 0),
            (Reg::EventsLastRx, 0),
            (Reg::EventsStopped, 0),
            (Reg::EventsError, 0),
            (Reg::ErrorSrc, 0),
        ]
    );
}

#[test]
fn who_am_i_results() {
    let sensor = MagnoSensor::default();
    assert_eq!(sensor.verify_who_am_i(Ok([64])), Ok(64));
    assert_eq!(sensor.verify_who_am_i(Err(3)), Err(3));
    assert_eq!(MagnoSensor::check_who_am_i(Ok(64)), Ok(()));
    assert_eq!(MagnoSensor::check_who_am_i(Ok(0x33)), Err(InitError::WrongWhoAmI(0x33)));
    assert_eq!(MagnoSensor::check_who_am_i(Err(1)), Err(InitError::Bus(1)));
}

#[test]
fn blocking_read_decisions() {
    let sensor = MagnoSensor::new();
    assert_eq!(sensor.get_magno_value_blocking(Ok([0x08])), Some(Ok(())));
    assert_eq!(sensor.get_magno_value_blocking(Ok([0xFF])), Some(Ok(())));
    assert_eq!(sensor.get_magno_value_blocking(Ok([0x07])), None);
    assert_eq!(sensor.get_magno_value_blocking(Err(4)), Some(Err(4)));
}

#[test]
fn field_read() {
    let sensor = MagnoSensor::new();
    assert_eq!(
        sensor.get_magno_value_no_check(Ok([0x10, 0x00, 0xFF, 0xFF, 0x00, 0x80])),
        Ok(MagnoAxis { x: 2400, y: -150, z: -4_915_200 })
    );
    assert_eq!(sensor.get_magno_value_no_check(Err(7)), Err(7));
}

#[test]
fn bus_clear_loop_bound() {
    assert!(MagnoSensor::bus_clear_continues(0, 0));
    assert!(MagnoSensor::bus_clear_continues(8, 0xFFFE_FFFF));
    assert!(!MagnoSensor::bus_clear_continues(9, 0));
    assert!(!MagnoSensor::bus_clear_continues(3, 0x1_0000));
}

/// Runs the start-up against scripted hardware: `line` gives the data-line
/// reads in turn (bit 16 set once released), `id` the identification
/// outcome, `config` the configuration write outcome. Returns the actions
/// asked for, in order, and the outcome.
fn run_startup(
    line: &[u32],
    id: Result<[u8; 1], u32>,
    config: Result<(), u32>,
) -> (Vec<String>, Result<MagnoSensor, InitError>) {
    let mut log = vec![];
    let mut reads = line.iter();
    let (mut state, mut action) = Startup::begin();
    loop {
        let event = match action {
            StartupAction::Write(w) => {
                log.push(format!("write {}", w.len()));
                StartupEvent::Written
            }
            StartupAction::Read(reg) => {
                assert_eq!(reg, Reg::GpioteConfig0);
                log.push("read".to_string());
                StartupEvent::LineRead(*reads.next().unwrap())
            }
            StartupAction::Pulse(w) => {
                assert_eq!(w, [(Reg::PselSda, 256), (Reg::PselScl, 256)]);
                log.push("pulse".to_string());
                StartupEvent::Written
            }
            StartupAction::Transfer(t) => {
                log.push(format!("transfer {:#x}", t.tx_buf[0]));
                if t.tx_buf[0] == 0x4F {
                    StartupEvent::Transferred(id)
                } else {
                    assert_eq!((t.tx_buf, t.tx_len, t.rx_len), ([0x60, 12], 2, 0));
                    StartupEvent::Transferred(config.map(|_| [0]))
                }
            }
            StartupAction::Finish(r) => return (log, r),
        };
        let (next, a) = state.advance(event);
        state = next;
        action = a;
    }
}

#[test]
fn startup_free_bus_succeeds() {
    let (log, r) = run_startup(&[0x1_0000], Ok([64]), Ok(()));
    assert_eq!(log, vec!["write 2", "read", "write 7", "write 5", "transfer 0x4f", "transfer 0x60"]);
    assert_eq!(r, Ok(MagnoSensor::new()));
}

#[test]
fn startup_clocks_stuck_bus_at_most_nine_times() {
    let (log, r) = run_startup(&[0, 0, 0x1_0000], Ok([64]), Ok(()));
    assert_eq!(&log[..6], &["write 2", "read", "pulse", "read", "pulse", "read"]);
    assert_eq!(r, Ok(MagnoSensor::new()));
    let (log, r) = run_startup(&[0; 9], Ok([64]), Ok(()));
    assert_eq!(log.iter().filter(|a| *a == "pulse").count(), 9);
    assert_eq!(log.iter().filter(|a| *a == "read").count(), 9);
    assert_eq!(log[19], "write 7");
    assert!(r.is_ok());
}

#[test]
fn startup_failures() {
    let (log, r) = run_startup(&[0x1_0000], Err(0x2), Ok(()));
    assert_eq!(r, Err(InitError::Bus(2)));
    assert_eq!(log.last().unwrap(), "transfer 0x4f");
    let (log, r) = run_startup(&[0x1_0000], Ok([0x33]), Ok(()));
    assert_eq!(r, Err(InitError::WrongWhoAmI(0x33)));
    assert!(!log.contains(&"transfer 0x60".to_string()));
    let (_, r) = run_startup(&[0x1_0000], Ok([64]), Err(0x4));
    assert_eq!(r, Err(InitError::ConfigWrite(4)));
}

#[test]
fn startup_ignores_unexpected_events() {
    let (s, _) = Startup::begin();
    let (next, _) = s.advance(StartupEvent::LineRead(0));
    assert_eq!(next, Startup::PreparingBusClear);
    let (done, a) = Startup::Done(Err(InitError::Bus(1))).advance(StartupEvent::Written);
    assert_eq!(done, Startup::Done(Err(InitError::Bus(1))));
    assert!(matches!(a, StartupAction::Finish(Err(InitError::Bus(1)))));
}
