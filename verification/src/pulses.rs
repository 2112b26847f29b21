//! Building the pulse train that carries one frame: 16 high/low pulses, most
//! significant bit first, closed by a zero-duration terminator.

use vstd::prelude::*;

use crate::timing::BitTicks;

verus! {

/// One pulse descriptor: the line is held at `level1` for `length1` ticks,
/// then at `level2` for `length2` ticks.
#[derive(Debug, Clone, Copy, PartialEq, Eq, Structural)]
pub struct Pulse {
    pub level1: bool,
    pub length1: u16,
    pub level2: bool,
    pub length2: u16,
}

impl Pulse {
    /// The terminator: both phases low with zero duration.
    pub open spec fn spec_zero() -> Pulse {
        Pulse { level1: false, length1: 0, level2: false, length2: 0 }
    }
}

impl Default for Pulse {
    fn default() -> (p: Pulse)
        ensures
            p == Pulse::spec_zero(),
    {
        Pulse { level1: false, length1: 0, level2: false, length2: 0 }
    }
}

/// Bit `i` of the frame, counted from the most significant: bit 0 is frame
/// bit 15.
pub open spec fn spec_bit(frame: u16, i: int) -> u16 {
    (frame >> (15 - i)) & 1
}

/// The pulse that carries one bit: high for the bit's high time, then low
/// for the bit's low time.
pub open spec fn spec_pulse(ticks: BitTicks, bit: u16) -> Pulse {
    if bit == 1 {
        Pulse { level1: true, length1: ticks.t1_h, level2: false, length2: ticks.t1_l }
    } else {
        Pulse { level1: true, length1: ticks.t0_h, level2: false, length2: ticks.t0_l }
    }
}

/// The full train for one frame: 16 bit pulses, most significant first, then
/// the zero terminator.
pub open spec fn spec_pulse_train(frame: u16, ticks: BitTicks) -> Seq<Pulse> {
    Seq::new(17, |i: int| if i == 16 {
        Pulse::spec_zero()
    } else {
        spec_pulse(ticks, spec_bit(frame, i))
    })
}

/// Pulse train for an arbitrary 16-bit frame: always exactly 17 entries, one
/// per frame bit in most-significant-first order, the last a zero-duration
/// terminator.
pub fn build_pulse_train(frame: u16, ticks: &BitTicks) -> (r: Vec<Pulse>)
    ensures
        r@ == spec_pulse_train(frame, *ticks),
        r@.len() == 17,
        r@[16] == Pulse::spec_zero(),
{
    let mut pulses: Vec<Pulse> = Vec::new();
    let mut i: u16 = 0;
    while i < 16
        invariant
            i <= 16,
            pulses@.len() == i as int,
            forall|j: int| 0 <= j < i as int ==> pulses@[j] == spec_pulse(*ticks, spec_bit(frame, j)),
        decreases 16 - i,
    {
        let bit: u16 = (frame >> (15 - i)) & 1;
        if bit == 1 {
            pulses.push(Pulse { level1: true, length1: ticks.t1_h, level2: false, length2: ticks.t1_l });
        } else {
            pulses.push(Pulse { level1: true, length1: ticks.t0_h, level2: false, length2: ticks.t0_l });
        }
        i = i + 1;
    }
    pulses.push(Pulse::default());
    assert(pulses@ =~= spec_pulse_train(frame, *ticks));
    pulses
}

} // verus!
