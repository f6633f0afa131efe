use microbit_kit::siren::{
    countdown_next, Siren, SirenStep, BASE_FREQ, COUNTDOWN_START, FREQ_TIME, TOP_FREQ,
};

#[test]
fn first_ticks() {
    let mut s = Siren::new();
    assert_eq!(s.tick(), SirenStep { speaker_high: true, half_period: 1136 });
    assert_eq!(s.tick(), SirenStep { speaker_high: false, half_period: 1136 });
    // 2272 microseconds gathered: the pitch is now 441 Hz
    assert_eq!(s.tick(), SirenStep { speaker_high: true, half_period: 1133 });
}

#[test]
fn sweep_stays_in_range_and_turns() {
    let mut s = Siren::new();
    let mut lowest = u32::MAX;
    let mut highest = 0;
    let mut turned_down = false;
    let mut previous = 1136;
    for _ in 0..2000 {
        let step = s.tick();
        assert!(step.half_period >= 757 && step.half_period <= 1136);
        lowest = lowest.min(step.half_period);
        highest = highest.max(step.half_period);
        if step.half_period > previous {
            turned_down = true;
        }
        previous = step.half_period;
    }
    // 500000 / 660 = 757 at the top of the sweep
    assert_eq!(lowest, 757);
    assert_eq!(highest, 1136);
    assert!(turned_down);
}

#[test]
fn speaker_alternates() {
    let mut s = Siren::new();
    let mut level = false;
    for _ in 0..10 {
        let step = s.tick();
        assert_eq!(step.speaker_high, !level);
        level = step.speaker_high;
    }
}

#[test]
fn constants() {
    assert_eq!(FREQ_TIME, 500_000 / 220);
    assert_eq!(BASE_FREQ, 440);
    assert_eq!(TOP_FREQ, 660);
}

#[test]
fn countdown_runs_ten_seconds_unless_pressed() {
    let mut shown = vec![];
    let mut remaining = Some(COUNTDOWN_START);
    while let Some(r) = remaining {
        shown.push(r);
        remaining = countdown_next(r, false);
    }
    assert_eq!(shown, vec![10, 9, 8, 7, 6, 5, 4, 3, 2, 1]);
    assert_eq!(countdown_next(10, true), None);
    assert_eq!(countdown_next(4, true), None);
    assert_eq!(countdown_next(4, false), Some(3));
    assert_eq!(countdown_next(1, false), None);
}
