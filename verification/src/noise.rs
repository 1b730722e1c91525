//! The settings of the noise pattern, and the point at which a position reads it.
use vstd::prelude::*;
use crate::fixed::{clamp, half, narrow, plus, quotient, scaled, sum, times, Vec2};
use crate::window::WindowSize;

verus! {

/// A change of the spatial scale of the pattern.
#[derive(Clone, Copy, Debug, PartialEq, Eq, Structural)]
pub enum Rescale {
    /// Half the scale: the pattern grows coarser.
    Halve,
    /// Twice the scale: the pattern grows finer.
    Double,
}

/// The seed of the noise generator and the spatial scale at which it is read.
#[derive(Clone, Copy, Debug, PartialEq, Eq, Structural)]
pub struct NoiseField {
    pub seed: u64,
    pub scale: i64,
}

/// The scale after a change: halves round toward zero, doubles saturate.
pub open spec fn rescaled(scale: i64, change: Rescale) -> int {
    match change {
        Rescale::Halve => quotient(scale as int, 2),
        Rescale::Double => clamp(scale * 2),
    }
}

impl NoiseField {
    /// Where the pattern is read for a position in the window: the position is
    /// counted from the lower left corner instead of the centre, then scaled.
    pub open spec fn sample_point(self, x: i64, y: i64, size: WindowSize) -> Vec2 {
        Vec2 {
            x: scaled(sum(x as int, size.half_width()), self.scale as int) as i64,
            y: scaled(sum(y as int, size.half_height()), self.scale as int) as i64,
        }
    }

    pub fn new(seed: u64, scale: i64) -> (noise: Self)
        ensures
            noise.seed == seed,
            noise.scale == scale,
    {
        NoiseField { seed, scale }
    }

    /// Starts a new pattern from another seed, at the same scale.
    pub fn reseed(&mut self, seed: u64)
        ensures
            final(self).seed == seed,
            final(self).scale == old(self).scale,
    {
        self.seed = seed;
    }

    /// Halves or doubles the scale of the pattern, which keeps its seed.
    pub fn rescale(&mut self, change: Rescale)
        ensures
            final(self).scale == rescaled(old(self).scale, change),
            final(self).seed == old(self).seed,
    {
        match change {
            Rescale::Halve => {
                self.scale = half(self.scale);
            },
            Rescale::Double => {
                self.scale = narrow(self.scale as i128 * 2);
            },
        }
    }

    /// Computes `sample_point`.
    pub fn locate(&self, x: i64, y: i64, size: &WindowSize) -> (point: Vec2)
        ensures
            point == self.sample_point(x, y, *size),
    {
        Vec2 {
            x: times(plus(x, half(size.width)), self.scale),
            y: times(plus(y, half(size.height)), self.scale),
        }
    }
}

} // verus!
