//! Sources of randomness for the breeding and pest-attrition operations.
//!
//! The game logic needs two kinds of draws: a point of the unit interval
//! (for chance checks such as pest destruction) and an index into a
//! non-empty collection (for picking a gene or a name syllable). Draws from
//! the unit interval are represented in fixed point: a draw `d` stands for
//! the real number `d / UNIT_DRAW_SCALE`.

use vstd::prelude::*;

verus! {

/// Number of equal subdivisions of the unit interval `[0, 1)` used to
/// represent a random draw: a draw `d` stands for `d / UNIT_DRAW_SCALE`.
pub const UNIT_DRAW_SCALE: u64 = 1_000_000;

/// Relies on rand::Rng::gen_range (via the thread-local generator): it
/// returns a uniformly distributed integer of the given half-open range and
/// panics only when the range is empty.
#[verifier::external_body]
fn system_random_below(bound: u64) -> (r: u64)
    requires
        bound > 0,
    ensures
        r < bound,
{
    rand::Rng::gen_range(&mut rand::thread_rng(), 0..bound)
}

/// An injectable source of random draws.
///
/// `System` draws from the process-wide generator; `Fixed` always yields
/// the held value, which makes breeding and seasonal advancement fully
/// deterministic for tests and replays.
#[derive(Clone, Copy, PartialEq, Eq, Structural, Debug)]
pub enum RandomSource {
    System,
    Fixed(u64),
}

impl RandomSource {
    /// One draw from the unit interval, in `UNIT_DRAW_SCALE` subdivisions.
    ///
    /// A `Fixed` source yields its held value unchanged, so a test may also
    /// represent the closed upper end of the interval by `UNIT_DRAW_SCALE`
    /// itself.
    pub fn unit_draw(&mut self) -> (r: u64)
        ensures
            *final(self) == *old(self),
            *old(self) is System ==> r < UNIT_DRAW_SCALE,
            *old(self) matches RandomSource::Fixed(v) ==> r == v,
    {
        let s: RandomSource = *self;
        match s {
            RandomSource::System => system_random_below(UNIT_DRAW_SCALE),
            RandomSource::Fixed(v) => v,
        }
    }

    /// A uniformly chosen index into a collection of `n` elements.
    pub fn pick_index(&mut self, n: usize) -> (r: usize)
        requires
            n > 0,
        ensures
            *final(self) == *old(self),
            r < n,
            *old(self) matches RandomSource::Fixed(v) ==> r as int == v as int % n as int,
    {
        let s: RandomSource = *self;
        let r64: u64 = match s {
            RandomSource::System => system_random_below(n as u64),
            RandomSource::Fixed(v) => v % (n as u64),
        };
        r64 as usize
    }
}

} // verus!
