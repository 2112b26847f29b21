//! Bit timings of the DShot rate classes and their conversion into hardware
//! tick counts for a given clock configuration.

use vstd::prelude::*;

verus! {

/// High times of the two bit patterns, in picoseconds. The unit is fine
/// enough to hold every rate class's constant exactly, DShot1200's
/// 0.3125 us zero-bit high time included.
#[derive(Debug, Clone, Copy, PartialEq, Eq, Structural)]
pub struct BitTimes {
    /// High time of a 0 bit, in picoseconds.
    pub t0_h: u32,
    /// High time of a 1 bit, in picoseconds.
    pub t1_h: u32,
}

impl BitTimes {
    pub fn new(t1_h: u32, t0_h: u32) -> (r: Self)
        ensures
            r.t1_h == t1_h,
            r.t0_h == t0_h,
    {
        Self { t0_h, t1_h }
    }
}

/// Durations of the four pulse phases, in hardware ticks: high and low phase
/// of a 0 bit, high and low phase of a 1 bit.
#[derive(Debug, Clone, Copy, PartialEq, Eq, Structural)]
pub struct BitTicks {
    pub t0_h: u16,
    pub t0_l: u16,
    pub t1_h: u16,
    pub t1_l: u16,
}

/// Nearest-integer tick count for a phase of `t_ps` picoseconds, one tick
/// lasting `clk_divider / clk_speed` seconds; capped at `u16::MAX`.
pub open spec fn spec_ticks(t_ps: u32, clk_speed: u32, clk_divider: u8) -> u16 {
    let num = t_ps as int * clk_speed as int;
    let den = clk_divider as int * 1_000_000_000_000;
    let rounded = if 2 * (num % den) >= den {
        num / den + 1
    } else {
        num / den
    };
    if rounded > 0xFFFF {
        0xFFFF as u16
    } else {
        rounded as u16
    }
}

impl BitTicks {
    /// The two bit patterns are timing-complements of each other: a bit's low
    /// phase lasts as long as the other bit's high phase.
    pub open spec fn wf(&self) -> bool {
        self.t0_l == self.t1_h && self.t1_l == self.t0_h
    }

    pub fn new(t1_h: u16, t0_h: u16) -> (r: Self)
        ensures
            r.t0_h == t0_h,
            r.t1_h == t1_h,
            r.t0_l == t1_h,
            r.t1_l == t0_h,
            r.wf(),
    {
        Self { t0_h, t1_h, t0_l: t1_h, t1_l: t0_h }
    }

    /// The table that `from_clk` computes for the given clock configuration.
    pub open spec fn spec_from_clk(clk_speed: u32, clk_divider: u8, bit_times: BitTimes) -> BitTicks {
        BitTicks {
            t0_h: spec_ticks(bit_times.t0_h, clk_speed, clk_divider),
            t0_l: spec_ticks(bit_times.t1_h, clk_speed, clk_divider),
            t1_h: spec_ticks(bit_times.t1_h, clk_speed, clk_divider),
            t1_l: spec_ticks(bit_times.t0_h, clk_speed, clk_divider),
        }
    }

    /// Tick table for a clock of `clk_speed` Hz behind a divider of
    /// `clk_divider`: each high time rounded to the nearest whole tick, the
    /// low times cross-wired per the `wf` invariant.
    pub fn from_clk(clk_speed: u32, clk_divider: u8, bit_times: BitTimes) -> (r: Self)
        requires
            clk_speed > 0,
            clk_divider > 0,
        ensures
            r == Self::spec_from_clk(clk_speed, clk_divider, bit_times),
            r.wf(),
    {
        let t1_h: u16 = ticks(bit_times.t1_h, clk_speed, clk_divider);
        let t0_h: u16 = ticks(bit_times.t0_h, clk_speed, clk_divider);
        Self::new(t1_h, t0_h)
    }
}

/// One phase duration in whole ticks, rounded to nearest, capped at `u16::MAX`.
fn ticks(t_ps: u32, clk_speed: u32, clk_divider: u8) -> (r: u16)
    requires
        clk_speed > 0,
        clk_divider > 0,
    ensures
        r == spec_ticks(t_ps, clk_speed, clk_divider),
{
    proof {
        assert((t_ps as int) * (clk_speed as int) <= 0xFFFF_FFFF * 0xFFFF_FFFF)
            by (nonlinear_arith)
            requires
                t_ps <= 0xFFFF_FFFFu32,
                clk_speed <= 0xFFFF_FFFFu32,
        ;
    }
    let num: u64 = (t_ps as u64) * (clk_speed as u64);
    let den: u64 = (clk_divider as u64) * 1_000_000_000_000;
    let q: u64 = num / den;
    let rem: u64 = num % den;
    proof {
        assert(rem < den && q * den <= num) by (nonlinear_arith)
            requires
                den > 0,
                q == num / den,
                rem == num % den,
        ;
    }
    let rounded: u64 = if 2 * rem >= den { q + 1 } else { q };
    if rounded > 0xFFFF {
        0xFFFF
    } else {
        rounded as u16
    }
}

/// The DShot rate classes.
#[derive(Debug, Clone, Copy, PartialEq, Eq, Structural)]
pub enum DShotSpeed {
    DShot150,
    DShot300,
    DShot600,
    DShot1200,
}

impl DShotSpeed {
    pub open spec fn spec_bit_period_ns(&self) -> u32 {
        match self {
            DShotSpeed::DShot150 => 6667,
            DShotSpeed::DShot300 => 3333,
            DShotSpeed::DShot600 => 1667,
            DShotSpeed::DShot1200 => 833,
        }
    }

    /// Nominal duration of one bit on the wire, in nanoseconds.
    pub fn bit_period_ns(&self) -> (r: u32)
        ensures
            r == self.spec_bit_period_ns(),
    {
        match self {
            DShotSpeed::DShot150 => 6667,
            DShotSpeed::DShot300 => 3333,
            DShotSpeed::DShot600 => 1667,
            DShotSpeed::DShot1200 => 833,
        }
    }

    pub open spec fn spec_bit_times(&self) -> BitTimes {
        match self {
            DShotSpeed::DShot150 => BitTimes { t1_h: 5_000_000, t0_h: 2_500_000 },
            DShotSpeed::DShot300 => BitTimes { t1_h: 2_500_000, t0_h: 1_250_000 },
            DShotSpeed::DShot600 => BitTimes { t1_h: 1_250_000, t0_h: 625_000 },
            DShotSpeed::DShot1200 => BitTimes { t1_h: 625_000, t0_h: 312_500 },
        }
    }

    /// High times of the two bit patterns, in picoseconds.
    pub fn bit_times(&self) -> (r: BitTimes)
        ensures
            r == self.spec_bit_times(),
    {
        match self {
            DShotSpeed::DShot150 => BitTimes::new(5_000_000, 2_500_000),
            DShotSpeed::DShot300 => BitTimes::new(2_500_000, 1_250_000),
            DShotSpeed::DShot600 => BitTimes::new(1_250_000, 625_000),
            DShotSpeed::DShot1200 => BitTimes::new(625_000, 312_500),
        }
    }

    pub open spec fn spec_default_bit_ticks(&self) -> BitTicks {
        match self {
            DShotSpeed::DShot150 => BitTicks { t1_h: 400, t0_h: 200, t0_l: 400, t1_l: 200 },
            DShotSpeed::DShot300 => BitTicks { t1_h: 200, t0_h: 100, t0_l: 200, t1_l: 100 },
            DShotSpeed::DShot600 => BitTicks { t1_h: 100, t0_h: 50, t0_l: 100, t1_l: 50 },
            DShotSpeed::DShot1200 => BitTicks { t1_h: 50, t0_h: 25, t0_l: 50, t1_l: 25 },
        }
    }

    /// Precomputed tick table for the reference clock: 80 MHz with a divider
    /// of 1.
    pub fn default_bit_ticks(&self) -> (r: BitTicks)
        ensures
            r == self.spec_default_bit_ticks(),
            r.wf(),
    {
        match self {
            DShotSpeed::DShot150 => BitTicks::new(400, 200),
            DShotSpeed::DShot300 => BitTicks::new(200, 100),
            DShotSpeed::DShot600 => BitTicks::new(100, 50),
            DShotSpeed::DShot1200 => BitTicks::new(50, 25),
        }
    }
}

/// `spec_ticks` evaluated at one point: when the high time splits into `q`
/// whole ticks and a remainder of `r` picosecond-scaled units short of half a
/// tick, the count is `q`.
proof fn lemma_ticks_exact(t_ps: u32, clk_speed: u32, clk_divider: u8, q: u16, r: int)
    requires
        clk_divider > 0,
        0 <= r,
        2 * r < clk_divider as int * 1_000_000_000_000,
        t_ps as int * clk_speed as int == q as int * (clk_divider as int * 1_000_000_000_000) + r,
    ensures
        spec_ticks(t_ps, clk_speed, clk_divider) == q,
{
    vstd::arithmetic::div_mod::lemma_fundamental_div_mod_converse(
        t_ps as int * clk_speed as int,
        clk_divider as int * 1_000_000_000_000,
        q as int,
        r,
    );
}

/// The default table is exactly what calibration computes for the reference
/// clock: 80 MHz, divider 1.
pub proof fn lemma_default_calibration(speed: DShotSpeed)
    ensures
        BitTicks::spec_from_clk(80_000_000, 1, speed.spec_bit_times()) == speed.spec_default_bit_ticks(),
{
    lemma_ticks_exact(5_000_000, 80_000_000, 1, 400, 0);
    lemma_ticks_exact(2_500_000, 80_000_000, 1, 200, 0);
    lemma_ticks_exact(1_250_000, 80_000_000, 1, 100, 0);
    lemma_ticks_exact(625_000, 80_000_000, 1, 50, 0);
    lemma_ticks_exact(312_500, 80_000_000, 1, 25, 0);
}

} // verus!
