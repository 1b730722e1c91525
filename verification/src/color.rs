//! The colours of the scene and how bright the particles glow.
use vstd::prelude::*;
use crate::chance::random_word;
use crate::fixed::{minus, plus, scaled, sum, times, UNIT};

verus! {

/// The luminosity of a scheme that nobody has changed: twenty.
pub const LUMINOSITY: i64 = 85899345920;

/// A colour by its red, green and blue parts, each a fixed-point number that
/// goes from zero to one.
#[derive(Clone, Copy, Debug, PartialEq, Eq, Structural)]
pub struct Color {
    pub red: i64,
    pub green: i64,
    pub blue: i64,
}

/// The colour of the background, the colour of the particles, and the factor by
/// which the particles' colour is brightened. The factor has no bounds of its own.
#[derive(Clone, Copy, Debug, PartialEq, Eq, Structural)]
pub struct ColorScheme {
    pub background: Color,
    pub particle: Color,
    pub luminosity: i64,
}

impl Color {
    pub open spec fn black() -> Color {
        Color { red: 0, green: 0, blue: 0 }
    }

    pub open spec fn white() -> Color {
        Color { red: UNIT, green: UNIT, blue: UNIT }
    }

    /// Every part lies between zero and one.
    pub open spec fn in_range(self) -> bool {
        &&& 0 <= self.red <= UNIT
        &&& 0 <= self.green <= UNIT
        &&& 0 <= self.blue <= UNIT
    }

    /// The colour whose parts are the given fractions, each counting steps of 2^-32.
    pub open spec fn of_fractions(red: u32, green: u32, blue: u32) -> Color {
        Color { red: red as i64, green: green as i64, blue: blue as i64 }
    }

    /// The colour with every part multiplied by `factor`.
    pub open spec fn lit(self, factor: i64) -> Color {
        Color {
            red: scaled(self.red as int, factor as int) as i64,
            green: scaled(self.green as int, factor as int) as i64,
            blue: scaled(self.blue as int, factor as int) as i64,
        }
    }

    /// The colour whose parts are the given fractions.
    pub fn from_fractions(red: u32, green: u32, blue: u32) -> (c: Color)
        ensures
            c == Self::of_fractions(red, green, blue),
            c.in_range(),
    {
        Color { red: red as i64, green: green as i64, blue: blue as i64 }
    }

    /// A colour with each part drawn at random.
    pub fn random() -> (c: Color)
        ensures
            exists|red: u32, green: u32, blue: u32| c == Self::of_fractions(red, green, blue),
            c.in_range(),
    {
        let red: u32 = random_word();
        let green: u32 = random_word();
        let blue: u32 = random_word();
        Self::from_fractions(red, green, blue)
    }

    /// The colour with every part multiplied by `factor`.
    pub fn brightened(&self, factor: i64) -> (c: Color)
        ensures
            c == self.lit(factor),
    {
        Color {
            red: times(self.red, factor),
            green: times(self.green, factor),
            blue: times(self.blue, factor),
        }
    }
}

impl ColorScheme {
    /// The scheme with background and particle colour exchanged.
    pub open spec fn inverted(self) -> ColorScheme {
        ColorScheme {
            background: self.particle,
            particle: self.background,
            luminosity: self.luminosity,
        }
    }

    /// The scheme with the luminosity changed by `steps`.
    pub open spec fn shifted(self, steps: int) -> ColorScheme {
        ColorScheme { luminosity: sum(self.luminosity as int, steps * UNIT) as i64, ..self }
    }

    /// A scheme as a random draw gives it: both colours in range, the luminosity
    /// at its starting value.
    pub open spec fn is_drawn(self) -> bool {
        &&& self.background.in_range()
        &&& self.particle.in_range()
        &&& self.luminosity == LUMINOSITY
    }

    /// The scheme at the starting luminosity whose colours have the given
    /// fractions as their parts: three for the background, then three for the
    /// particles.
    pub open spec fn of_fractions(background: (u32, u32, u32), particle: (u32, u32, u32)) -> ColorScheme {
        ColorScheme {
            background: Color::of_fractions(background.0, background.1, background.2),
            particle: Color::of_fractions(particle.0, particle.1, particle.2),
            luminosity: LUMINOSITY,
        }
    }

    /// White particles on black.
    pub fn default() -> (scheme: Self)
        ensures
            scheme == (ColorScheme {
                background: Color::black(),
                particle: Color::white(),
                luminosity: LUMINOSITY,
            }),
    {
        ColorScheme {
            background: Color { red: 0, green: 0, blue: 0 },
            particle: Color { red: UNIT, green: UNIT, blue: UNIT },
            luminosity: LUMINOSITY,
        }
    }

    pub fn custom(background: Color, particle: Color, luminosity: i64) -> (scheme: Self)
        ensures
            scheme == (ColorScheme { background, particle, luminosity }),
    {
        ColorScheme { background, particle, luminosity }
    }

    /// The scheme at the starting luminosity whose colours have the given
    /// fractions as their parts.
    pub fn from_fractions(background: (u32, u32, u32), particle: (u32, u32, u32)) -> (scheme: Self)
        ensures
            scheme == Self::of_fractions(background, particle),
            scheme.is_drawn(),
    {
        ColorScheme {
            background: Color::from_fractions(background.0, background.1, background.2),
            particle: Color::from_fractions(particle.0, particle.1, particle.2),
            luminosity: LUMINOSITY,
        }
    }

    /// Two colours drawn at random, at the starting luminosity: six fractions are
    /// drawn, the background's red, green and blue first, then the particles'.
    pub fn random() -> (scheme: Self)
        ensures
            exists|background: (u32, u32, u32), particle: (u32, u32, u32)|
                scheme == Self::of_fractions(background, particle),
            scheme.is_drawn(),
    {
        let back_red: u32 = random_word();
        let back_green: u32 = random_word();
        let back_blue: u32 = random_word();
        let red: u32 = random_word();
        let green: u32 = random_word();
        let blue: u32 = random_word();
        Self::from_fractions((back_red, back_green, back_blue), (red, green, blue))
    }

    /// The scheme with background and particle colour exchanged.
    pub fn inverse(&self) -> (scheme: Self)
        ensures
            scheme == self.inverted(),
    {
        ColorScheme {
            background: self.particle,
            particle: self.background,
            luminosity: self.luminosity,
        }
    }

    /// The scheme one step darker; the luminosity may fall below zero.
    pub fn dimmer(&self) -> (scheme: Self)
        ensures
            scheme == self.shifted(-1),
    {
        ColorScheme { luminosity: minus(self.luminosity, UNIT), ..*self }
    }

    /// The scheme one step brighter.
    pub fn brighter(&self) -> (scheme: Self)
        ensures
            scheme == self.shifted(1),
    {
        ColorScheme { luminosity: plus(self.luminosity, UNIT), ..*self }
    }

    /// The colour in which the particles are drawn: their colour times the luminosity.
    pub fn glow(&self) -> (c: Color)
        ensures
            c == self.particle.lit(self.luminosity),
    {
        self.particle.brightened(self.luminosity)
    }
}

/// Exchanging the colours twice gives the scheme back.
pub proof fn lemma_inverse_is_involution(scheme: ColorScheme)
    ensures
        scheme.inverted().inverted() == scheme,
{
}

} // verus!
