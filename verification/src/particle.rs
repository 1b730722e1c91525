//! One particle and the rules by which it moves.
use vstd::prelude::*;
use crate::chance::random_word;
use crate::fixed::{
    half, lemma_product_bounded, lemma_product_of_fraction, minus, plus, product, quotient, scaled,
    sum, times, Vec2, UNIT,
};
use crate::window::WindowSize;

verus! {

/// A particle: where it is, how fast it moves, and whether it waits to be replaced.
/// The velocity and the mark are used only where a vector field drives the particles.
#[derive(Clone, Copy, Debug, PartialEq, Eq, Structural)]
pub struct Particle {
    pub x: i64,
    pub y: i64,
    pub velocity: Vec2,
    pub pending_respawn: bool,
}

/// The coordinate at the given fraction of the way across an extent that is centred
/// on zero; the fraction counts steps of 2^-32 and so stays below one.
pub open spec fn placed(fraction: u32, extent: i64) -> int {
    -quotient(extent as int, 2) + product(fraction as int, extent as int)
}

/// A coordinate placed across an extent that is not negative lies within it.
pub proof fn lemma_placed_within(fraction: u32, extent: i64)
    requires
        extent >= 0,
    ensures
        -quotient(extent as int, 2) <= placed(fraction, extent) <= quotient(extent as int, 2),
{
    lemma_product_of_fraction(fraction as int, extent as int);
}

/// Computes `placed`.
pub fn place(fraction: u32, extent: i64) -> (r: i64)
    ensures
        r == placed(fraction, extent),
{
    proof {
        lemma_product_of_fraction(fraction as int, extent as int);
    }
    let offset: i64 = times(fraction as i64, extent);
    minus(offset, half(extent))
}

impl Particle {
    /// A particle at rest at the given point.
    pub open spec fn resting(x: int, y: int) -> Particle {
        Particle { x: x as i64, y: y as i64, velocity: Vec2 { x: 0, y: 0 }, pending_respawn: false }
    }

    /// A particle at rest at the given fractions of the way across the window.
    pub open spec fn scattered(fx: u32, fy: u32, size: WindowSize) -> Particle {
        Self::resting(placed(fx, size.width), placed(fy, size.height))
    }

    /// This particle is a fresh one somewhere in the window.
    pub open spec fn is_fresh(self, size: WindowSize) -> bool {
        exists|fx: u32, fy: u32| self == Self::scattered(fx, fy, size)
    }

    /// This particle sits where `other` sits, or is `other` moved somewhere in the window.
    pub open spec fn is_moved(self, other: Particle, size: WindowSize) -> bool {
        exists|fx: u32, fy: u32|
            self == (Particle {
                x: placed(fx, size.width) as i64,
                y: placed(fy, size.height) as i64,
                ..other
            })
    }

    /// The particle lies on an edge of the window or beyond it.
    pub open spec fn outside(self, size: WindowSize) -> bool {
        size.outside(self.x as int, self.y as int)
    }

    /// The particle moved to the given fractions of the way across the window if it
    /// has left the window, and as it is if it has not.
    pub open spec fn relocated(self, size: WindowSize, fx: u32, fy: u32) -> Particle {
        if self.outside(size) {
            Particle { x: placed(fx, size.width) as i64, y: placed(fy, size.height) as i64, ..self }
        } else {
            self
        }
    }

    /// The particle one step further along `heading` at the given speed.
    pub open spec fn advanced(self, heading: Vec2, speed: i64) -> Particle {
        Particle {
            x: sum(self.x as int, scaled(heading.x as int, speed as int)) as i64,
            y: sum(self.y as int, scaled(heading.y as int, speed as int)) as i64,
            ..self
        }
    }

    /// The velocity after the force has acted for `dt`.
    pub open spec fn pushed(velocity: Vec2, force: Vec2, dt: i64) -> Vec2 {
        Vec2 {
            x: sum(velocity.x as int, scaled(force.x as int, dt as int)) as i64,
            y: sum(velocity.y as int, scaled(force.y as int, dt as int)) as i64,
        }
    }

    /// The distance covered along one axis in `dt` at the given velocity and speed.
    pub open spec fn travel(velocity: i64, dt: i64, speed: i64) -> int {
        scaled(scaled(velocity as int, dt as int), speed as int)
    }

    /// The particle after one step under a force: marked for replacement if it has
    /// left the window, and otherwise with the force added to its velocity and the
    /// new velocity carried into its position.
    pub open spec fn driven(self, force: Vec2, dt: i64, speed: i64, size: WindowSize) -> Particle {
        if self.outside(size) {
            Particle { pending_respawn: true, ..self }
        } else {
            let v = Self::pushed(self.velocity, force, dt);
            Particle {
                x: sum(self.x as int, Self::travel(v.x, dt, speed)) as i64,
                y: sum(self.y as int, Self::travel(v.y, dt, speed)) as i64,
                velocity: v,
                pending_respawn: self.pending_respawn,
            }
        }
    }

    /// A particle at rest at the given point.
    pub fn at(x: i64, y: i64) -> (p: Particle)
        ensures
            p == Self::resting(x as int, y as int),
    {
        Particle { x, y, velocity: Vec2 { x: 0, y: 0 }, pending_respawn: false }
    }

    /// A particle at rest at the given fractions of the way across the window.
    pub fn scatter(fx: u32, fy: u32, size: &WindowSize) -> (p: Particle)
        ensures
            p == Self::scattered(fx, fy, *size),
    {
        Self::at(place(fx, size.width), place(fy, size.height))
    }

    /// A particle at rest at a random point of the window.
    pub fn random(size: &WindowSize) -> (p: Particle)
        ensures
            p.is_fresh(*size),
    {
        let fx: u32 = random_word();
        let fy: u32 = random_word();
        Self::scatter(fx, fy, size)
    }

    /// Whether the particle lies on an edge of the window or beyond it.
    pub fn is_outside(&self, size: &WindowSize) -> (out: bool)
        ensures
            out == self.outside(*size),
    {
        size.is_outside(self.x, self.y)
    }

    /// Moves the particle to the given fractions of the way across the window,
    /// keeping its velocity and its mark.
    pub fn move_to(&mut self, fx: u32, fy: u32, size: &WindowSize)
        ensures
            *final(self) == (Particle {
                x: placed(fx, size.width) as i64,
                y: placed(fy, size.height) as i64,
                ..*old(self)
            }),
    {
        self.x = place(fx, size.width);
        self.y = place(fy, size.height);
    }

    /// Moves the particle to a random point of the window.
    pub fn move_to_random(&mut self, size: &WindowSize)
        ensures
            final(self).is_moved(*old(self), *size),
    {
        let fx: u32 = random_word();
        let fy: u32 = random_word();
        self.move_to(fx, fy, size);
    }

    /// Moves the particle to the given fractions of the way across the window if it
    /// has left the window.
    pub fn relocate(&mut self, size: &WindowSize, fx: u32, fy: u32)
        ensures
            *final(self) == old(self).relocated(*size, fx, fy),
    {
        if self.is_outside(size) {
            self.move_to(fx, fy, size);
        }
    }

    /// Moves the particle to a random point of the window if it has left the window.
    pub fn relocate_if_outside(&mut self, size: &WindowSize)
        ensures
            !old(self).outside(*size) ==> *final(self) == *old(self),
            old(self).outside(*size) ==> final(self).is_moved(*old(self), *size),
    {
        if self.is_outside(size) {
            self.move_to_random(size);
        }
    }

    /// Moves the particle one step along `heading` at the given speed.
    pub fn advance(&mut self, heading: Vec2, speed: i64)
        ensures
            *final(self) == old(self).advanced(heading, speed),
    {
        self.x = plus(self.x, times(heading.x, speed));
        self.y = plus(self.y, times(heading.y, speed));
    }

    /// One step under a force: a particle that has left the window is marked for
    /// replacement and stays; any other gains `force * dt` in velocity and then
    /// `velocity * dt * speed` in position.
    pub fn drive(&mut self, force: Vec2, dt: i64, speed: i64, size: &WindowSize)
        ensures
            *final(self) == old(self).driven(force, dt, speed, *size),
    {
        if self.is_outside(size) {
            self.pending_respawn = true;
        } else {
            let vx: i64 = plus(self.velocity.x, times(force.x, dt));
            let vy: i64 = plus(self.velocity.y, times(force.y, dt));
            self.velocity = Vec2 { x: vx, y: vy };
            self.x = plus(self.x, times(times(vx, dt), speed));
            self.y = plus(self.y, times(times(vy, dt), speed));
        }
    }
}

/// The particle after `steps` steps under one and the same force.
pub open spec fn driven_times(
    p: Particle,
    force: Vec2,
    dt: i64,
    speed: i64,
    size: WindowSize,
    steps: nat,
) -> Particle
    decreases steps,
{
    if steps == 0 {
        p
    } else {
        driven_times(p, force, dt, speed, size, (steps - 1) as nat).driven(force, dt, speed, size)
    }
}

/// A step along a heading changes each coordinate by the heading times the speed,
/// which for a heading of length one or less is never more than the speed.
pub proof fn lemma_step_length(p: Particle, heading: Vec2, speed: i64)
    requires
        -UNIT <= heading.x <= UNIT,
        -UNIT <= heading.y <= UNIT,
        speed >= 0,
    ensures
        p.advanced(heading, speed).x == sum(
            p.x as int,
            product(heading.x as int, speed as int),
        ),
        p.advanced(heading, speed).y == sum(
            p.y as int,
            product(heading.y as int, speed as int),
        ),
        -speed <= product(heading.x as int, speed as int) <= speed,
        -speed <= product(heading.y as int, speed as int) <= speed,
{
    lemma_product_bounded(heading.x as int, speed as int);
    lemma_product_bounded(heading.y as int, speed as int);
}

/// After a step that follows the noise the particle lies in the window or beyond
/// its edge by no more than the speed: a particle that had left the window was
/// brought back before it moved, and a heading is no longer than one.
pub proof fn lemma_step_stays_near(
    p: Particle,
    size: WindowSize,
    fx: u32,
    fy: u32,
    heading: Vec2,
    speed: i64,
)
    requires
        size.width >= 0,
        size.height >= 0,
        -UNIT <= heading.x <= UNIT,
        -UNIT <= heading.y <= UNIT,
        speed >= 0,
    ensures
        ({
            let q = p.relocated(size, fx, fy).advanced(heading, speed);
            &&& -(size.half_width() + speed) <= q.x <= size.half_width() + speed
            &&& -(size.half_height() + speed) <= q.y <= size.half_height() + speed
        }),
{
    lemma_placed_within(fx, size.width);
    lemma_placed_within(fy, size.height);
    lemma_product_bounded(heading.x as int, speed as int);
    lemma_product_bounded(heading.y as int, speed as int);
}

/// Under one and the same force, and while the particle stays in the window, the
/// velocity grows by `force * dt` with every step, as long as it fits the numbers.
pub proof fn lemma_constant_force(
    p: Particle,
    force: Vec2,
    dt: i64,
    speed: i64,
    size: WindowSize,
    steps: nat,
)
    requires
        forall|k: nat|
            k < steps ==> !(#[trigger] driven_times(p, force, dt, speed, size, k)).outside(size),
        i64::MIN <= p.velocity.x + steps * scaled(force.x as int, dt as int) <= i64::MAX,
        i64::MIN <= p.velocity.y + steps * scaled(force.y as int, dt as int) <= i64::MAX,
    ensures
        driven_times(p, force, dt, speed, size, steps).velocity.x == p.velocity.x + steps * scaled(
            force.x as int,
            dt as int,
        ),
        driven_times(p, force, dt, speed, size, steps).velocity.y == p.velocity.y + steps * scaled(
            force.y as int,
            dt as int,
        ),
    decreases steps,
{
    let ax = scaled(force.x as int, dt as int);
    let ay = scaled(force.y as int, dt as int);
    let (vx, vy) = (p.velocity.x as int, p.velocity.y as int);
    if steps == 0 {
        assert(steps * ax == 0 && steps * ay == 0) by (nonlinear_arith)
            requires
                steps == 0,
        ;
    } else {
        let before = (steps - 1) as nat;
        assert(vx + before * ax == vx + steps * ax - ax && vy + before * ay == vy + steps * ay - ay)
            by (nonlinear_arith)
            requires
                before == steps - 1,
        ;
        assert(i64::MIN <= vx + before * ax <= i64::MAX) by (nonlinear_arith)
            requires
                i64::MIN <= vx <= i64::MAX,
                i64::MIN <= vx + steps * ax <= i64::MAX,
                0 <= before < steps,
        ;
        assert(i64::MIN <= vy + before * ay <= i64::MAX) by (nonlinear_arith)
            requires
                i64::MIN <= vy <= i64::MAX,
                i64::MIN <= vy + steps * ay <= i64::MAX,
                0 <= before < steps,
        ;
        lemma_constant_force(p, force, dt, speed, size, before);
        let q = driven_times(p, force, dt, speed, size, before);
        assert(!q.outside(size));
        assert(q.velocity.x == vx + before * ax);
        assert(q.driven(force, dt, speed, size).velocity.x == vx + steps * ax);
    }
}

} // verus!
