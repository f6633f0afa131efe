//! The turn-signal arrow: while one button is held, an arrow pointing to
//! its side shows for a while and then the matrix goes dark for a while,
//! over and over; with no button (or both) a single dot shows.
use vstd::prelude::*;

verus! {

/// Frames that the arrow shows lit before it goes dark.
pub const TICK: u16 = 25;

/// Frames that the arrow stays dark.
pub const BLINK_TICK: u16 = 50;

/// The phase of a held arrow and the frames left in it.
#[derive(Clone, Copy, Debug, PartialEq, Eq, Structural)]
pub enum Light {
    Lit(u16),
    Blinking(u16),
}

/// What the matrix shows.
#[derive(Clone, Copy, Debug, PartialEq, Eq, Structural)]
pub enum LightState {
    Middle,
    Left(Light),
    Right(Light),
}

/// The image that a frame of the program puts on the matrix.
#[derive(Clone, Copy, Debug, PartialEq, Eq, Structural)]
pub enum Frame {
    MidLed,
    LeftArrow,
    RightArrow,
    Blink,
}

/// One step of a held arrow: the count goes down by one; at zero the phase
/// changes and the other phase's count starts.
pub open spec fn light_ticked(l: Light) -> Light {
    match l {
        Light::Lit(t) => if t == 0 {
            Light::Blinking(BLINK_TICK)
        } else {
            Light::Lit((t - 1) as u16)
        },
        Light::Blinking(t) => if t == 0 {
            Light::Lit(TICK)
        } else {
            Light::Blinking((t - 1) as u16)
        },
    }
}

/// `n` steps of a held arrow.
pub open spec fn light_ticked_n(l: Light, n: nat) -> Light
    decreases n,
{
    if n == 0 {
        l
    } else {
        light_ticked_n(light_ticked(l), (n - 1) as nat)
    }
}

/// The states that a held arrow goes through.
pub open spec fn light_in_cycle(l: Light) -> bool {
    match l {
        Light::Lit(t) => t <= TICK,
        Light::Blinking(t) => t <= BLINK_TICK,
    }
}

/// The number of frames in one lit-and-dark cycle of a held arrow.
pub open spec fn light_period() -> nat {
    (TICK + 1 + BLINK_TICK + 1) as nat
}

impl Light {
    /// One frame of a held arrow.
    pub fn tick(&mut self)
        ensures
            *final(self) == light_ticked(*old(self)),
    {
        match self {
            Light::Lit(tick) => {
                if *tick == 0 {
                    *self = Light::Blinking(BLINK_TICK);
                } else {
                    *tick -= 1;
                }
            },
            Light::Blinking(tick) => {
                if *tick == 0 {
                    *self = Light::Lit(TICK);
                } else {
                    *tick -= 1;
                }
            },
        }
    }
}

/// The frame that a state shows after it was advanced.
pub open spec fn frame_of(s: LightState) -> Frame {
    match s {
        LightState::Middle => Frame::MidLed,
        LightState::Left(Light::Lit(_)) => Frame::LeftArrow,
        LightState::Right(Light::Lit(_)) => Frame::RightArrow,
        LightState::Left(Light::Blinking(_)) => Frame::Blink,
        LightState::Right(Light::Blinking(_)) => Frame::Blink,
    }
}

/// A state advanced by one frame: a held arrow ticks, the dot stays.
pub open spec fn state_advanced(s: LightState) -> LightState {
    match s {
        LightState::Middle => LightState::Middle,
        LightState::Left(l) => LightState::Left(light_ticked(l)),
        LightState::Right(l) => LightState::Right(light_ticked(l)),
    }
}

/// The state after the buttons were read: pressing only the left (right)
/// button starts a fresh left (right) arrow unless that arrow already
/// shows; any other combination goes back to the dot.
pub open spec fn state_after_buttons(s: LightState, left_pressed: bool, right_pressed: bool) -> LightState {
    if left_pressed && !right_pressed {
        match s {
            LightState::Left(_) => s,
            _ => LightState::Left(Light::Lit(TICK)),
        }
    } else if !left_pressed && right_pressed {
        match s {
            LightState::Right(_) => s,
            _ => LightState::Right(Light::Lit(TICK)),
        }
    } else {
        LightState::Middle
    }
}

impl LightState {
    /// Advances a held arrow by one frame and returns the frame to show.
    pub fn advance(&mut self) -> (f: Frame)
        ensures
            *final(self) == state_advanced(*old(self)),
            f == frame_of(*final(self)),
    {
        match self {
            LightState::Middle => Frame::MidLed,
            LightState::Left(state) => {
                state.tick();
                match state {
                    Light::Lit(_) => Frame::LeftArrow,
                    Light::Blinking(_) => Frame::Blink,
                }
            },
            LightState::Right(state) => {
                state.tick();
                match state {
                    Light::Lit(_) => Frame::RightArrow,
                    Light::Blinking(_) => Frame::Blink,
                }
            },
        }
    }

    /// Takes the buttons' state (pressed or not) into account.
    pub fn on_buttons(&mut self, left_pressed: bool, right_pressed: bool)
        ensures
            *final(self) == state_after_buttons(*old(self), left_pressed, right_pressed),
    {
        match (left_pressed, right_pressed) {
            (true, false) => match self {
                LightState::Left(_) => {},
                _ => {
                    *self = LightState::Left(Light::Lit(TICK));
                },
            },
            (false, true) => match self {
                LightState::Right(_) => {},
                _ => {
                    *self = LightState::Right(Light::Lit(TICK));
                },
            },
            (false, false) | (true, true) => {
                *self = LightState::Middle;
            },
        }
    }
}

/// Whether a frame lights cell (`row`, `col`): the dot lights the centre;
/// an arrow lights the middle row, the middle column's ends and the two
/// cells beside the middle column on the side it points to.
pub open spec fn frame_lit(f: Frame, row: int, col: int) -> bool {
    match f {
        Frame::MidLed => row == 2 && col == 2,
        Frame::LeftArrow => row == 2 || ((row == 0 || row == 4) && col == 2) || ((row == 1
            || row == 3) && col == 1),
        Frame::RightArrow => row == 2 || ((row == 0 || row == 4) && col == 2) || ((row == 1
            || row == 3) && col == 3),
        Frame::Blink => false,
    }
}

impl Frame {
    /// The frame's image as rows of LED levels (1 lit, 0 dark).
    pub fn image(&self) -> (m: [[u8; 5]; 5])
        ensures
            forall|row: int, col: int|
                0 <= row < 5 && 0 <= col < 5 ==> #[trigger] m[row][col] == (if frame_lit(
                    *self,
                    row,
                    col,
                ) {
                    1u8
                } else {
                    0u8
                }),
    {
        match self {
            Frame::LeftArrow => [
                [0, 0, 1, 0, 0],
                [0, 1, 0, 0, 0],
                [1, 1, 1, 1, 1],
                [0, 1, 0, 0, 0],
                [0, 0, 1, 0, 0],
            ],
            Frame::RightArrow => [
                [0, 0, 1, 0, 0],
                [0, 0, 0, 1, 0],
                [1, 1, 1, 1, 1],
                [0, 0, 0, 1, 0],
                [0, 0, 1, 0, 0],
            ],
            Frame::MidLed => [
                [0, 0, 0, 0, 0],
                [0, 0, 0, 0, 0],
                [0, 0, 1, 0, 0],
                [0, 0, 0, 0, 0],
                [0, 0, 0, 0, 0],
            ],
            Frame::Blink => [[0; 5]; 5],
        }
    }
}

/// The right arrow is the left arrow mirrored left to right.
pub proof fn lemma_arrows_mirror(row: int, col: int)
    requires
        0 <= row < 5,
        0 <= col < 5,
    ensures
        frame_lit(Frame::RightArrow, row, col) == frame_lit(Frame::LeftArrow, row, 4 - col),
{
}

/// `a + b` steps of a held arrow are `a` steps followed by `b` steps.
pub proof fn lemma_ticks_compose(l: Light, a: nat, b: nat)
    ensures
        light_ticked_n(l, a + b) == light_ticked_n(light_ticked_n(l, a), b),
    decreases a,
{
    if a > 0 {
        lemma_ticks_compose(light_ticked(l), (a - 1) as nat, b);
    }
}

/// A lit count of `t` runs down to zero in `t` steps; a dark count likewise.
pub proof fn lemma_count_down(l: Light, k: nat)
    ensures
        l matches Light::Lit(t) ==> (k <= t ==> light_ticked_n(l, k) == Light::Lit(
            (t - k) as u16,
        )),
        l matches Light::Blinking(t) ==> (k <= t ==> light_ticked_n(l, k) == Light::Blinking(
            (t - k) as u16,
        )),
    decreases k,
{
    if k > 0 {
        match l {
            Light::Lit(t) => {
                if k <= t {
                    lemma_count_down(Light::Lit((t - 1) as u16), (k - 1) as nat);
                }
            },
            Light::Blinking(t) => {
                if k <= t {
                    lemma_count_down(Light::Blinking((t - 1) as u16), (k - 1) as nat);
                }
            },
        }
    }
}

/// One step as a count of steps.
proof fn lemma_one_tick(l: Light)
    ensures
        light_ticked_n(l, 1) == light_ticked(l),
{
    assert(light_ticked_n(light_ticked(l), 0) == light_ticked(l));
}

/// Every state of a held arrow is reached from a fresh arrow.
proof fn lemma_cycle_position(l: Light) -> (m: nat)
    requires
        light_in_cycle(l),
    ensures
        m < light_period(),
        light_ticked_n(Light::Lit(TICK), m) == l,
{
    lemma_count_down(Light::Lit(TICK), TICK as nat);
    match l {
        Light::Lit(t) => {
            let k = (TICK - t) as nat;
            lemma_count_down(Light::Lit(TICK), k);
            assert(light_ticked_n(Light::Lit(TICK), k) == Light::Lit((TICK - k) as u16));
            assert((TICK - k) as u16 == t);
            k
        },
        Light::Blinking(t) => {
            let m = (TICK + 1 + BLINK_TICK - t) as nat;
            lemma_ticks_compose(Light::Lit(TICK), (TICK + 1) as nat, (BLINK_TICK - t) as nat);
            assert(light_ticked_n(Light::Lit(TICK), (TICK + 1) as nat) == Light::Blinking(
                BLINK_TICK,
            )) by {
                lemma_ticks_compose(Light::Lit(TICK), TICK as nat, 1);
                lemma_one_tick(Light::Lit(0));
            }
            lemma_count_down(Light::Blinking(BLINK_TICK), (BLINK_TICK - t) as nat);
            m
        },
    }
}

/// A held arrow repeats itself: after one full cycle of 77 frames (26 lit,
/// 51 dark) every state of the cycle comes back.
pub proof fn lemma_light_cycle(l: Light)
    requires
        light_in_cycle(l),
    ensures
        light_ticked_n(l, light_period()) == l,
        light_period() == 77,
{
    let m = lemma_cycle_position(l);
    let fresh = Light::Lit(TICK);
    // one full cycle from a fresh arrow comes back to it
    lemma_count_down(fresh, TICK as nat);
    lemma_ticks_compose(fresh, TICK as nat, 1);
    lemma_count_down(Light::Blinking(BLINK_TICK), BLINK_TICK as nat);
    lemma_ticks_compose(fresh, (TICK + 1) as nat, BLINK_TICK as nat);
    lemma_ticks_compose(fresh, (TICK + 1 + BLINK_TICK) as nat, 1);
    lemma_one_tick(Light::Blinking(0));
    lemma_one_tick(Light::Lit(0));
    assert(light_ticked_n(fresh, light_period()) == fresh);
    lemma_ticks_compose(fresh, m, light_period());
    lemma_ticks_compose(fresh, light_period(), m);
    assert(m + light_period() == light_period() + m);
}

/// The state with its sides swapped: the left arrow for the right one and
/// back; the dot stays.
pub open spec fn mirrored(s: LightState) -> LightState {
    match s {
        LightState::Middle => LightState::Middle,
        LightState::Left(l) => LightState::Right(l),
        LightState::Right(l) => LightState::Left(l),
    }
}

/// The frame with its sides swapped.
pub open spec fn mirrored_frame(f: Frame) -> Frame {
    match f {
        Frame::LeftArrow => Frame::RightArrow,
        Frame::RightArrow => Frame::LeftArrow,
        _ => f,
    }
}

/// One pass of the program's loop with the buttons read as given: the state
/// advances (and its frame shows), then the buttons are taken into account.
pub open spec fn loop_pass(s: LightState, left_pressed: bool, right_pressed: bool) -> LightState {
    state_after_buttons(state_advanced(s), left_pressed, right_pressed)
}

/// `n` passes of the loop with the same buttons held.
pub open spec fn loop_passes(s: LightState, left_pressed: bool, right_pressed: bool, n: nat) -> LightState
    decreases n,
{
    if n == 0 {
        s
    } else {
        loop_passes(loop_pass(s, left_pressed, right_pressed), left_pressed, right_pressed, (n - 1) as nat)
    }
}

/// The buttons: holding the button of the arrow that shows keeps that arrow
/// as it is (it goes on counting down); pressing one button while its arrow
/// does not show starts a fresh arrow on its side; no button, or both, goes
/// back to the dot. The two buttons are handled alike, side for side.
pub proof fn lemma_buttons(s: LightState, left_pressed: bool, right_pressed: bool)
    ensures
        s is Left && left_pressed && !right_pressed ==> state_after_buttons(s, left_pressed, right_pressed) == s,
        s is Right && !left_pressed && right_pressed ==> state_after_buttons(s, left_pressed, right_pressed) == s,
        !(s is Left) && left_pressed && !right_pressed ==> state_after_buttons(s, left_pressed, right_pressed)
            == LightState::Left(Light::Lit(TICK)),
        !(s is Right) && !left_pressed && right_pressed ==> state_after_buttons(s, left_pressed, right_pressed)
            == LightState::Right(Light::Lit(TICK)),
        left_pressed == right_pressed ==> state_after_buttons(s, left_pressed, right_pressed)
            == LightState::Middle,
        state_after_buttons(mirrored(s), right_pressed, left_pressed) == mirrored(
            state_after_buttons(s, left_pressed, right_pressed),
        ),
{
}

/// The frames: the two sides advance alike and show mirrored frames; a held
/// arrow shows its side's arrow in its lit phase and a dark matrix in its
/// dark phase; the dot shows the centre.
pub proof fn lemma_frames(s: LightState, l: Light)
    ensures
        state_advanced(mirrored(s)) == mirrored(state_advanced(s)),
        frame_of(mirrored(s)) == mirrored_frame(frame_of(s)),
        l is Lit ==> frame_of(LightState::Left(l)) == Frame::LeftArrow && frame_of(
            LightState::Right(l),
        ) == Frame::RightArrow,
        l is Blinking ==> forall|row: int, col: int|
            !frame_lit(frame_of(LightState::Left(l)), row, col) && !frame_lit(
                frame_of(LightState::Right(l)),
                row,
                col,
            ),
        frame_of(LightState::Middle) == Frame::MidLed,
{
}

/// Holding only one button, its arrow runs through the cycle of a held
/// light: after `n` passes of the loop it is the light ticked `n` times.
pub proof fn lemma_held_button_cycles(l: Light, n: nat)
    ensures
        loop_passes(LightState::Right(l), false, true, n) == LightState::Right(light_ticked_n(l, n)),
        loop_passes(LightState::Left(l), true, false, n) == LightState::Left(light_ticked_n(l, n)),
    decreases n,
{
    if n > 0 {
        lemma_held_button_cycles(light_ticked(l), (n - 1) as nat);
    }
}

/// Holding the right button from a fresh right arrow, the 26th frame is
/// dark: 26 lit frames, then the blink.
pub proof fn lemma_held_right_blinks()
    ensures
        forall|k: nat| k < 25 ==> frame_of(
            state_advanced(#[trigger] loop_passes(LightState::Right(Light::Lit(TICK)), false, true, k)),
        ) == Frame::RightArrow,
        frame_of(state_advanced(loop_passes(LightState::Right(Light::Lit(TICK)), false, true, 25)))
            == Frame::Blink,
{
    assert forall|k: nat| k < 25 implies frame_of(
        state_advanced(#[trigger] loop_passes(LightState::Right(Light::Lit(TICK)), false, true, k)),
    ) == Frame::RightArrow by {
        lemma_held_button_cycles(Light::Lit(TICK), k);
        lemma_count_down(Light::Lit(TICK), k);
    }
    lemma_held_button_cycles(Light::Lit(TICK), 25);
    lemma_count_down(Light::Lit(TICK), 25);
}

} // verus!
