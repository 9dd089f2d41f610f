//! The control policy: the thresholds and steps of one device, and the fan
//! levels that one cycle asks for.

use vstd::prelude::*;

verus! {

/// The thresholds and steps that a controller decides by. The temperatures are
/// meant to rise from `temp_ok` over `temp_hot` to `temp_crit`; the rules are
/// stated for any three values.
#[derive(Clone, Copy, Debug, PartialEq, Eq)]
pub struct Jam {
    /// The fan level, in percent, to settle at while warm.
    pub pwm_ok: usize,
    pub temp_ok: usize,
    pub temp_hot: usize,
    pub temp_crit: usize,
    /// The step, in percent, by which the level is raised; also the width of
    /// the band above `pwm_ok` in which a level counts as settled.
    pub pwm_up: isize,
    /// The step, in percent, by which the level is lowered.
    pub pwm_down: isize,
}

/// The highest fan level, in percent.
pub const PWM_MAX: usize = 100;

/// Where a level stands against the band `[val, val + delta_up)`: `-1` below
/// it, `0` within it, `1` at or above its end.
pub open spec fn near(level: int, val: int, delta_up: int) -> int {
    if level < val {
        -1
    } else if level < val + delta_up {
        0
    } else {
        1
    }
}

/// A level brought into `[0, 100]`.
pub open spec fn clamped(pwm: int) -> usize {
    if pwm > 100 {
        100
    } else if pwm > 0 {
        pwm as usize
    } else {
        0
    }
}

impl Jam {
    /// Where `level` stands against the band above `pwm_ok`.
    pub open spec fn side(self, level: usize) -> int {
        near(level as int, self.pwm_ok as int, self.pwm_up as int)
    }

    /// No warmer than `temp_ok`.
    pub open spec fn cold(self, tmax: usize) -> bool {
        tmax <= self.temp_ok
    }

    /// Between `temp_ok` and `temp_hot`, both excluded.
    pub open spec fn warm(self, tmax: usize) -> bool {
        self.temp_ok < tmax < self.temp_hot
    }

    /// At `temp_hot` or above.
    pub open spec fn hot(self, tmax: usize) -> bool {
        tmax >= self.temp_hot
    }

    /// Above `temp_crit`.
    pub open spec fn critical(self, tmax: usize) -> bool {
        tmax > self.temp_crit
    }

    /// While cold the level only falls: by `pwm_down`, where the window has
    /// been more than a degree under `temp_ok` or the level is over the band.
    pub open spec fn cold_move(self, level: usize, tmax: usize, wmax: usize) -> Seq<usize> {
        if self.cold(tmax) && (self.temp_ok - wmax > 1 || self.side(level) > 0) {
            seq![clamped(level - self.pwm_down)]
        } else {
            seq![]
        }
    }

    /// While warm a level under `pwm_ok` rises by `pwm_up`.
    pub open spec fn warm_rise(self, level: usize, tmax: usize) -> Seq<usize> {
        if self.warm(tmax) && self.side(level) < 0 {
            seq![clamped(level + self.pwm_up)]
        } else {
            seq![]
        }
    }

    /// While warm a level over the band falls by `pwm_down`, where the window
    /// has been more than a degree under `temp_hot`.
    pub open spec fn warm_fall(self, level: usize, tmax: usize, wmax: usize) -> Seq<usize> {
        if self.warm(tmax) && self.side(level) > 0 && self.temp_hot - wmax > 1 {
            seq![clamped(level - self.pwm_down)]
        } else {
            seq![]
        }
    }

    /// While hot the level only rises: from under `pwm_ok` it jumps to four
    /// steps over `pwm_ok`, otherwise it rises by two steps.
    pub open spec fn hot_move(self, level: usize, tmax: usize) -> Seq<usize> {
        if self.hot(tmax) {
            if self.side(level) < 0 {
                seq![clamped(self.pwm_ok + 4 * self.pwm_up)]
            } else {
                seq![clamped(level + 2 * self.pwm_up)]
            }
        } else {
            seq![]
        }
    }

    /// Over `temp_crit` the fan is driven at its maximum.
    pub open spec fn critical_move(self, tmax: usize) -> Seq<usize> {
        if self.critical(tmax) {
            seq![PWM_MAX]
        } else {
            seq![]
        }
    }

    /// The levels that one cycle asks for, in the order in which they are
    /// asked: none without a reading (`tmax == 0`); else what the cold, the
    /// warm, the hot and the critical rule give, each judged by the level
    /// `level` that the cycle started with, the hottest reading `tmax` of the
    /// cycle and the hottest sample `wmax` of the window.
    pub open spec fn planned(self, level: usize, tmax: usize, wmax: usize) -> Seq<usize> {
        if tmax == 0 {
            seq![]
        } else {
            self.cold_move(level, tmax, wmax) + self.warm_rise(level, tmax) + self.warm_fall(
                level,
                tmax,
                wmax,
            ) + self.hot_move(level, tmax) + self.critical_move(tmax)
        }
    }

    /// Where `level` stands against the band `[val, val + delta_up)`.
    pub fn pwm_near(level: usize, val: usize, delta_up: isize) -> (r: isize)
        ensures
            r == near(level as int, val as int, delta_up as int),
    {
        if level < val {
            -1
        } else if (level as i128) < (val as i128) + (delta_up as i128) {
            0
        } else {
            1
        }
    }

    /// Brings a level into `[0, 100]`.
    pub fn clamp(pwm: i128) -> (r: usize)
        ensures
            r == clamped(pwm as int),
            r <= 100,
    {
        if pwm > 100 {
            100
        } else if pwm > 0 {
            pwm as usize
        } else {
            0
        }
    }

    /// The levels that one cycle asks for.
    pub fn plan(&self, level: usize, tmax: usize, wmax: usize) -> (r: Vec<usize>)
        ensures
            r@ == self.planned(level, tmax, wmax),
    {
        let mut moves: Vec<usize> = Vec::new();
        if tmax == 0 {
            return moves;
        }
        let side: isize = Jam::pwm_near(level, self.pwm_ok, self.pwm_up);
        let now: i128 = level as i128;
        let up: i128 = self.pwm_up as i128;
        let down: i128 = self.pwm_down as i128;
        if tmax <= self.temp_ok {
            if (self.temp_ok as i128) - (wmax as i128) > 1 || side > 0 {
                moves.push(Jam::clamp(now - down));
            }
        }
        if self.temp_ok < tmax && tmax < self.temp_hot {
            if side < 0 {
                moves.push(Jam::clamp(now + up));
            }
            if side > 0 && (self.temp_hot as i128) - (wmax as i128) > 1 {
                moves.push(Jam::clamp(now - down));
            }
        }
        if tmax >= self.temp_hot {
            if side < 0 {
                moves.push(Jam::clamp((self.pwm_ok as i128) + 4 * up));
            } else {
                moves.push(Jam::clamp(now + 2 * up));
            }
        }
        if tmax > self.temp_crit {
            moves.push(PWM_MAX);
        }
        moves
    }

    /// No level that a cycle asks for is over 100.
    pub proof fn law_planned_in_range(self, level: usize, tmax: usize, wmax: usize)
        ensures
            forall|i: int|
                0 <= i < self.planned(level, tmax, wmax).len() ==> #[trigger] self.planned(
                    level,
                    tmax,
                    wmax,
                )[i] <= 100,
    {
    }

    /// Over `temp_crit` the last level that a cycle asks for is 100, whatever
    /// the other rules asked before it.
    pub proof fn law_critical_asks_maximum(self, level: usize, tmax: usize, wmax: usize)
        requires
            tmax > self.temp_crit,
        ensures
            self.planned(level, tmax, wmax).len() > 0,
            self.planned(level, tmax, wmax).last() == 100,
    {
    }

    /// Without a reading a cycle asks for nothing.
    pub proof fn law_no_reading_asks_nothing(self, level: usize, wmax: usize)
        ensures
            self.planned(level, 0, wmax) == Seq::<usize>::empty(),
    {
    }

    /// With the temperatures in order, a cycle applies exactly one of the cold,
    /// the warm and the hot rule, then the critical one.
    pub proof fn law_zones_part(self, level: usize, tmax: usize, wmax: usize)
        requires
            self.temp_ok < self.temp_hot,
            tmax > 0,
        ensures
            self.cold(tmax) ==> self.planned(level, tmax, wmax) == self.cold_move(
                level,
                tmax,
                wmax,
            ) + self.critical_move(tmax),
            self.warm(tmax) ==> self.planned(level, tmax, wmax) == self.warm_rise(level, tmax)
                + self.warm_fall(level, tmax, wmax) + self.critical_move(tmax),
            self.hot(tmax) ==> self.planned(level, tmax, wmax) == self.hot_move(level, tmax)
                + self.critical_move(tmax),
            self.cold(tmax) || self.warm(tmax) || self.hot(tmax),
            self.planned(level, tmax, wmax).len() <= 2,
    {
    }
}

} // verus!
