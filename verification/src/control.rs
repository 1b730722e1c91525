//! What the keys do to the noise pattern, the colours and the particles.
use vstd::prelude::*;
use crate::color::ColorScheme;
use crate::noise::{rescaled, NoiseField, Rescale};
use crate::store::ParticleStore;
use crate::window::WindowSize;

verus! {

/// The keys that went down in one frame, one flag for each command.
#[derive(Clone, Copy, Debug, PartialEq, Eq, Structural)]
pub struct Keys {
    /// Start a new noise pattern.
    pub reseed: bool,
    /// Halve the scale of the pattern.
    pub scale_up: bool,
    /// Double the scale of the pattern; halving wins where both are down.
    pub scale_down: bool,
    /// Scatter the particles anew.
    pub reset: bool,
    /// Exchange background and particle colour.
    pub invert: bool,
    /// Draw two new colours.
    pub new_colors: bool,
    /// One step less luminosity.
    pub dimmer: bool,
    /// One step more luminosity; less wins where both are down.
    pub brighter: bool,
}

impl Keys {
    /// No key is down.
    pub open spec fn none() -> Keys {
        Keys {
            reseed: false,
            scale_up: false,
            scale_down: false,
            reset: false,
            invert: false,
            new_colors: false,
            dimmer: false,
            brighter: false,
        }
    }

    /// One of the keys that are down asks for the trails to be drawn anew.
    pub open spec fn changes_scene(self) -> bool {
        self.reset || self.invert || self.new_colors || self.dimmer || self.brighter
    }

    /// The noise settings after the keys: a new seed first, then the scale.
    pub open spec fn noise_after(self, noise: NoiseField, seed: u64) -> NoiseField {
        NoiseField {
            seed: if self.reseed {
                seed
            } else {
                noise.seed
            },
            scale: if self.scale_up {
                rescaled(noise.scale, Rescale::Halve) as i64
            } else if self.scale_down {
                rescaled(noise.scale, Rescale::Double) as i64
            } else {
                noise.scale
            },
        }
    }

    /// The colours after the keys, where `drawn` is the scheme that a draw of new
    /// colours gives: the exchange comes first, the draw replaces the scheme, and
    /// the luminosity changes last.
    pub open spec fn colors_after(self, colors: ColorScheme, drawn: ColorScheme) -> ColorScheme {
        let exchanged = if self.invert {
            colors.inverted()
        } else {
            colors
        };
        let chosen = if self.new_colors {
            drawn
        } else {
            exchanged
        };
        if self.dimmer {
            chosen.shifted(-1)
        } else if self.brighter {
            chosen.shifted(1)
        } else {
            chosen
        }
    }

    /// No key is down.
    pub fn released() -> (keys: Keys)
        ensures
            keys == Keys::none(),
    {
        Keys {
            reseed: false,
            scale_up: false,
            scale_down: false,
            reset: false,
            invert: false,
            new_colors: false,
            dimmer: false,
            brighter: false,
        }
    }

    /// Whether the trails have to be drawn anew.
    pub fn refreshes(&self) -> (refresh: bool)
        ensures
            refresh == self.changes_scene(),
    {
        self.reset || self.invert || self.new_colors || self.dimmer || self.brighter
    }

    /// Applies the keys to the noise settings; `seed` is the seed of a new pattern.
    pub fn apply_to_noise(&self, noise: &mut NoiseField, seed: u64)
        ensures
            *final(noise) == self.noise_after(*old(noise), seed),
    {
        if self.reseed {
            noise.reseed(seed);
        }
        if self.scale_up {
            noise.rescale(Rescale::Halve);
        } else if self.scale_down {
            noise.rescale(Rescale::Double);
        }
    }

    /// Applies the keys to the colours; `drawn` is the scheme to take where new
    /// colours are asked for.
    pub fn apply_to_colors(&self, colors: &mut ColorScheme, drawn: ColorScheme)
        ensures
            *final(colors) == self.colors_after(*old(colors), drawn),
    {
        if self.invert {
            *colors = colors.inverse();
        }
        if self.new_colors {
            *colors = drawn;
        }
        if self.dimmer {
            *colors = colors.dimmer();
        } else if self.brighter {
            *colors = colors.brighter();
        }
    }
}

/// Applies the keys of one frame. A reseed takes `time_seed`; a reset moves every
/// particle to a random point of the window; new colours are drawn at random. The
/// result says whether the trails have to be drawn anew with the colours as they
/// now are.
pub fn keyboard_input(
    keys: &Keys,
    time_seed: u64,
    size: &WindowSize,
    noise: &mut NoiseField,
    colors: &mut ColorScheme,
    particles: &mut ParticleStore,
) -> (refresh: bool)
    ensures
        refresh == keys.changes_scene(),
        *final(noise) == keys.noise_after(*old(noise), time_seed),
        exists|drawn: ColorScheme|
            drawn.is_drawn() && *final(colors) == #[trigger] keys.colors_after(*old(colors), drawn),
        !keys.reset ==> final(particles)@ == old(particles)@,
        keys.reset ==> final(particles)@.len() == old(particles)@.len(),
        keys.reset ==> forall|i: int|
            0 <= i < old(particles)@.len() ==> (#[trigger] final(particles)@[i]).is_moved(
                old(particles)@[i],
                *size,
            ),
{
    keys.apply_to_noise(noise, time_seed);
    if keys.reset {
        particles.reset_positions(size);
    }
    let drawn: ColorScheme = if keys.new_colors {
        ColorScheme::random()
    } else {
        ColorScheme::default()
    };
    keys.apply_to_colors(colors, drawn);
    keys.refreshes()
}

} // verus!
