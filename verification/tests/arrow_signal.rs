use microbit_kit::arrow::{Frame, Light, LightState, BLINK_TICK, TICK};

#[test]
fn light_counts_down_then_switches() {
    let mut l = Light::Lit(2);
    l.tick();
    assert_eq!(l, Light::Lit(1));
    l.tick();
    assert_eq!(l, Light::Lit(0));
    l.tick();
    assert_eq!(l, Light::Blinking(BLINK_TICK));
    let mut b = Light::Blinking(0);
    b.tick();
    assert_eq!(b, Light::Lit(TICK));
}

#[test]
fn light_cycle_is_77_frames() {
    for start in [Light::Lit(TICK), Light::Lit(3), Light::Blinking(BLINK_TICK), Light::Blinking(0)] {
        let mut l = start;
        for _ in 0..77 {
            l.tick();
        }
        assert_eq!(l, start);
    }
}

#[test]
fn held_left_button_shows_arrow_then_blank() {
    let mut s = LightState::Middle;
    assert_eq!(s.advance(), Frame::MidLed);
    s.on_buttons(true, false);
    assert_eq!(s, LightState::Left(Light::Lit(TICK)));
    let mut frames = Vec::new();
    for _ in 0..80 {
        frames.push(s.advance());
        s.on_buttons(true, false);
    }
    // the fresh arrow counts 24 down to 0 lit, then 50 down to 0 dark
    assert!(frames[..25].iter().all(|f| *f == Frame::LeftArrow));
    assert!(frames[25..76].iter().all(|f| *f == Frame::Blink));
    assert_eq!(frames[76], Frame::LeftArrow);
}

#[test]
fn buttons_switch_sides_and_release() {
    let mut s = LightState::Left(Light::Blinking(4));
    s.on_buttons(true, false);
    assert_eq!(s, LightState::Left(Light::Blinking(4)));
    s.on_buttons(false, true);
    assert_eq!(s, LightState::Right(Light::Lit(TICK)));
    assert_eq!(s.advance(), Frame::RightArrow);
    s.on_buttons(true, true);
    assert_eq!(s, LightState::Middle);
    s.on_buttons(false, false);
    assert_eq!(s, LightState::Middle);
}

#[test]
fn frame_images() {
    assert_eq!(
        Frame::LeftArrow.image(),
        [[0, 0, 1, 0, 0], [0, 1, 0, 0, 0], [1, 1, 1, 1, 1], [0, 1, 0, 0, 0], [0, 0, 1, 0, 0]]
    );
    assert_eq!(
        Frame::RightArrow.image(),
        [[0, 0, 1, 0, 0], [0, 0, 0, 1, 0], [1, 1, 1, 1, 1], [0, 0, 0, 1, 0], [0, 0, 1, 0, 0]]
    );
    assert_eq!(Frame::Blink.image(), [[0; 5]; 5]);
    let mid = Frame::MidLed.image();
    assert_eq!(mid[2][2], 1);
    assert_eq!(mid.iter().flatten().filter(|v| **v == 1).count(), 1);
}

#[test]
fn arrows_are_mirror_images() {
    let l = Frame::LeftArrow.image();
    let r = Frame::RightArrow.image();
    for row in 0..5 {
        for col in 0..5 {
            assert_eq!(l[row][col], r[row][4 - col]);
        }
    }
}
