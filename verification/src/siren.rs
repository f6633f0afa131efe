//! The siren: a square wave on the speaker whose pitch sweeps up from 440 Hz
//! to 660 Hz and back down, over and over.
use vstd::prelude::*;

verus! {

/// The lowest pitch, in Hz, where the sweep starts.
pub const BASE_FREQ: u32 = 440;

/// The highest pitch, in Hz, where the sweep turns down.
pub const TOP_FREQ: u32 = 660;

/// The number of 1 Hz steps from the lowest to the highest pitch.
pub const MAX_RISE: u32 = 220;

/// Half a second in microseconds: a full sweep up takes about this long.
pub const MAX_FREQ_CYCLE: u32 = 500_000;

/// Microseconds between two 1 Hz steps of the pitch.
pub const FREQ_TIME: u32 = 2272;

/// The half period, in microseconds, of a square wave of `freq` Hz as the
/// siren times it (the quotient rounds down).
pub open spec fn half_period_of(freq: u32) -> u32 {
    (MAX_FREQ_CYCLE / freq) as u32
}

/// What one tick asks of the hardware: the speaker level to set and the
/// microseconds until the next tick.
#[derive(Clone, Copy, Debug, PartialEq, Eq, Structural)]
pub struct SirenStep {
    pub speaker_high: bool,
    pub half_period: u32,
}

/// The state of the sweep.
pub struct Siren {
    is_high: bool,
    current_freq: u32,
    going_up: bool,
    accumulated_time: u32,
}

impl Siren {
    /// The pitch stays between the lowest and the highest, it turns at the
    /// ends, and less than one step's time is pending.
    #[verifier::type_invariant]
    spec fn sweep_inv(self) -> bool {
        &&& BASE_FREQ <= self.current_freq <= TOP_FREQ
        &&& self.going_up ==> self.current_freq < TOP_FREQ
        &&& !self.going_up ==> self.current_freq > BASE_FREQ
        &&& self.accumulated_time < FREQ_TIME
    }

    /// Whether the speaker is high.
    pub closed spec fn level(&self) -> bool {
        self.is_high
    }

    /// The current pitch in Hz.
    pub closed spec fn frequency(&self) -> u32 {
        self.current_freq
    }

    /// Whether the pitch is rising.
    pub closed spec fn rising(&self) -> bool {
        self.going_up
    }

    /// Microseconds gathered towards the next pitch step.
    pub closed spec fn accumulated(&self) -> u32 {
        self.accumulated_time
    }

    /// A sweep that starts low and rising, with the speaker low.
    pub fn new() -> (r: Siren)
        ensures
            !r.level(),
            r.frequency() == BASE_FREQ,
            r.rising(),
            r.accumulated() == 0,
    {
        Siren { is_high: false, current_freq: BASE_FREQ, going_up: true, accumulated_time: 0 }
    }

    /// One half period of the wave: flips the speaker, adds the half period
    /// to the time gathered, and when a step's time (`FREQ_TIME`) is
    /// gathered moves the pitch one hertz on, turning at 660 Hz and 440 Hz.
    pub fn tick(&mut self) -> (r: SirenStep)
        ensures
            r.speaker_high == !old(self).level(),
            final(self).level() == r.speaker_high,
            r.half_period == half_period_of(old(self).frequency()),
            757 <= r.half_period <= 1136,
            BASE_FREQ <= final(self).frequency() <= TOP_FREQ,
            final(self).accumulated() < FREQ_TIME,
            ({
                let gathered = old(self).accumulated() + r.half_period;
                if gathered >= FREQ_TIME {
                    &&& final(self).accumulated() == gathered - FREQ_TIME
                    &&& old(self).rising() ==> final(self).frequency() == old(self).frequency() + 1
                        && final(self).rising() == (old(self).frequency() + 1 < TOP_FREQ)
                    &&& !old(self).rising() ==> final(self).frequency() == old(self).frequency()
                        - 1 && final(self).rising() == (old(self).frequency() - 1 <= BASE_FREQ)
                } else {
                    &&& final(self).accumulated() == gathered
                    &&& final(self).frequency() == old(self).frequency()
                    &&& final(self).rising() == old(self).rising()
                }
            }),
    {
        proof {
            use_type_invariant(&*self);
            lemma_half_period_range(self.current_freq);
        }
        let is_high = !self.is_high;
        let half_period = MAX_FREQ_CYCLE / self.current_freq;
        let mut accumulated_time = self.accumulated_time + half_period;
        let mut current_freq = self.current_freq;
        let mut going_up = self.going_up;
        if accumulated_time >= FREQ_TIME {
            accumulated_time -= FREQ_TIME;
            if going_up {
                current_freq += 1;
                if current_freq >= TOP_FREQ {
                    going_up = false;
                }
            } else {
                current_freq -= 1;
                if current_freq <= BASE_FREQ {
                    going_up = true;
                }
            }
        }
        *self = Siren { is_high, current_freq, going_up, accumulated_time };
        SirenStep { speaker_high: is_high, half_period }
    }
}

/// The seconds that the siren sounds before the launch, counted down one
/// a second.
pub const COUNTDOWN_START: u32 = 10;

/// The count that follows a second in which `remaining` was shown: the
/// countdown stops (`None`) when a button was pressed during that second or
/// when it showed the last second, and goes on one lower otherwise.
pub fn countdown_next(remaining: u32, pressed: bool) -> (r: Option<u32>)
    requires
        remaining >= 1,
    ensures
        r == (if pressed || remaining == 1 {
            None
        } else {
            Some((remaining - 1) as u32)
        }),
{
    if pressed || remaining == 1 {
        None
    } else {
        Some(remaining - 1)
    }
}

/// Between the lowest and the highest pitch the half period lies between
/// 757 and 1136 microseconds.
pub proof fn lemma_half_period_range(freq: u32)
    requires
        BASE_FREQ <= freq <= TOP_FREQ,
    ensures
        757 <= half_period_of(freq) <= 1136,
{
    assert(757 <= 500_000u32 / freq <= 1136) by (nonlinear_arith)
        requires
            440 <= freq <= 660,
    {
        assert(500_000u32 / freq <= 500_000u32 / 440u32);
        assert(500_000u32 / freq >= 500_000u32 / 660u32);
    }
}

/// The step time is the half-second sweep spread over the 220 steps.
pub proof fn lemma_freq_time()
    ensures
        FREQ_TIME == MAX_FREQ_CYCLE / MAX_RISE,
        TOP_FREQ == BASE_FREQ + MAX_RISE,
{
}

} // verus!
