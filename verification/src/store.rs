//! The particles of the field, oldest first, and the rules that keep their number.
use vstd::prelude::*;
use crate::field::VectorField;
use crate::fixed::Vec2;
use crate::noise::NoiseField;
use crate::particle::Particle;
use crate::window::WindowSize;

verus! {

/// What one adjustment of the population did.
#[derive(Clone, Copy, Debug, PartialEq, Eq, Structural)]
pub enum PopulationChange {
    /// One particle was added.
    Spawned,
    /// This many of the oldest particles were removed.
    Evicted(usize),
    /// The population was at its target already.
    Unchanged,
}

/// The particles, in the order in which they were added.
pub struct ParticleStore {
    particles: Vec<Particle>,
}

/// The number of particles after one adjustment toward `target`: one more while
/// there are too few, and the target at once when there are too many.
pub open spec fn next_count(count: nat, target: nat) -> nat {
    if count < target {
        count + 1
    } else {
        target
    }
}

/// The number of particles after the given number of adjustments toward `target`.
pub open spec fn count_after(count: nat, target: nat, frames: nat) -> nat
    decreases frames,
{
    if frames == 0 {
        count
    } else {
        count_after(next_count(count, target), target, (frames - 1) as nat)
    }
}

/// The particles after one adjustment toward `target`, where `fresh` is the particle
/// to add if one is wanted: the oldest go first when there are too many.
pub open spec fn adjusted(particles: Seq<Particle>, target: nat, fresh: Particle) -> Seq<Particle> {
    if particles.len() < target {
        particles.push(fresh)
    } else {
        particles.skip(particles.len() - target)
    }
}

/// What an adjustment toward `target` reports for a population of `count`.
pub open spec fn change_for(count: nat, target: nat) -> PopulationChange {
    if count < target {
        PopulationChange::Spawned
    } else if count > target {
        PopulationChange::Evicted((count - target) as usize)
    } else {
        PopulationChange::Unchanged
    }
}

/// Holds of the particles that do not wait to be replaced.
pub open spec fn settled() -> spec_fn(Particle) -> bool {
    |p: Particle| !p.pending_respawn
}

impl View for ParticleStore {
    type V = Seq<Particle>;

    closed spec fn view(&self) -> Seq<Particle> {
        self.particles@
    }
}

impl ParticleStore {
    /// A store without particles.
    pub fn new() -> (store: Self)
        ensures
            store@ == Seq::<Particle>::empty(),
    {
        ParticleStore { particles: Vec::new() }
    }

    /// The number of particles.
    pub fn len(&self) -> (n: usize)
        ensures
            n == self@.len(),
    {
        self.particles.len()
    }

    /// The particle at the given place, the oldest being at place 0.
    pub fn get(&self, index: usize) -> (p: Option<Particle>)
        ensures
            index < self@.len() ==> p == Some(self@[index as int]),
            index >= self@.len() ==> p.is_none(),
    {
        if index < self.particles.len() {
            Some(self.particles[index])
        } else {
            None
        }
    }

    /// Adds a particle as the youngest.
    pub fn push(&mut self, p: Particle)
        ensures
            final(self)@ == old(self)@.push(p),
    {
        self.particles.push(p);
    }

    /// Removes the `count` oldest particles, or all of them if there are fewer.
    pub fn evict_oldest(&mut self, count: usize)
        ensures
            count <= old(self)@.len() ==> final(self)@ == old(self)@.skip(count as int),
            count > old(self)@.len() ==> final(self)@ == Seq::<Particle>::empty(),
    {
        let mut rest: Vec<Particle> = Vec::new();
        let mut i: usize = count;
        while i < self.particles.len()
            invariant
                count <= i,
                count <= self.particles@.len() ==> i <= self.particles@.len(),
                self.particles@ == old(self)@,
                i <= self.particles@.len() ==> rest@ == self.particles@.subrange(
                    count as int,
                    i as int,
                ),
                count > self.particles@.len() ==> rest@ == Seq::<Particle>::empty(),
            decreases self.particles.len() - i,
        {
            rest.push(self.particles[i]);
            i += 1;
        }
        assert(count <= old(self)@.len() ==> rest@ == old(self)@.skip(count as int));
        self.particles = rest;
    }

    /// Adds a particle at rest at a random point of the window.
    pub fn spawn_random(&mut self, size: &WindowSize)
        ensures
            final(self)@.len() == old(self)@.len() + 1,
            final(self)@.drop_last() == old(self)@,
            final(self)@.last().is_fresh(*size),
    {
        let p: Particle = Particle::random(size);
        self.particles.push(p);
    }

    /// Adds `count` particles at rest at random points of the window.
    pub fn add_particles(&mut self, count: usize, size: &WindowSize)
        ensures
            final(self)@.len() == old(self)@.len() + count,
            final(self)@.take(old(self)@.len() as int) == old(self)@,
            forall|i: int|
                old(self)@.len() <= i < final(self)@.len() ==> (#[trigger] final(self)@[i]).is_fresh(
                    *size,
                ),
    {
        let mut added: usize = 0;
        while added < count
            invariant
                added <= count,
                self.particles@.len() == old(self)@.len() + added,
                self.particles@.take(old(self)@.len() as int) == old(self)@,
                forall|i: int|
                    old(self)@.len() <= i < self.particles@.len() ==> (
                    #[trigger] self.particles@[i]).is_fresh(*size),
            decreases count - added,
        {
            let p: Particle = Particle::random(size);
            self.particles.push(p);
            added += 1;
        }
    }

    /// One adjustment of the population toward `target`, with `fresh` as the particle
    /// to add if one is wanted. Too few particles grow by one; too many lose their
    /// oldest at once, down to the target.
    pub fn enforce_count_with(&mut self, target: usize, fresh: Particle) -> (change: PopulationChange)
        ensures
            final(self)@ == adjusted(old(self)@, target as nat, fresh),
            final(self)@.len() == next_count(old(self)@.len(), target as nat),
            change == change_for(old(self)@.len(), target as nat),
    {
        let count: usize = self.particles.len();
        if count < target {
            self.particles.push(fresh);
            PopulationChange::Spawned
        } else if count > target {
            self.evict_oldest(count - target);
            PopulationChange::Evicted(count - target)
        } else {
            assert(self.particles@.skip(0) == self.particles@);
            PopulationChange::Unchanged
        }
    }

    /// One adjustment of the population toward `target`. Too few particles grow by
    /// one, at rest at a random point of the window; too many lose their oldest at
    /// once, down to the target.
    pub fn enforce_count(&mut self, target: usize, size: &WindowSize) -> (change: PopulationChange)
        ensures
            final(self)@.len() == next_count(old(self)@.len(), target as nat),
            change == change_for(old(self)@.len(), target as nat),
            old(self)@.len() < target ==> final(self)@.drop_last() == old(self)@
                && final(self)@.last().is_fresh(*size),
            old(self)@.len() >= target ==> final(self)@ == old(self)@.skip(
                old(self)@.len() - target,
            ),
    {
        if self.particles.len() < target {
            let fresh: Particle = Particle::random(size);
            let change = self.enforce_count_with(target, fresh);
            assert(self@.drop_last() == old(self)@);
            change
        } else {
            self.enforce_count_with(target, Particle::at(0, 0))
        }
    }
}

impl ParticleStore {
    /// Moves every particle to a random point of the window, keeping its velocity
    /// and its mark.
    pub fn reset_positions(&mut self, size: &WindowSize)
        ensures
            final(self)@.len() == old(self)@.len(),
            forall|i: int|
                0 <= i < old(self)@.len() ==> (#[trigger] final(self)@[i]).is_moved(
                    old(self)@[i],
                    *size,
                ),
    {
        let mut i: usize = 0;
        while i < self.particles.len()
            invariant
                i <= self.particles@.len(),
                self.particles@.len() == old(self)@.len(),
                forall|j: int|
                    0 <= j < i ==> (#[trigger] self.particles@[j]).is_moved(old(self)@[j], *size),
                forall|j: int| i <= j < old(self)@.len() ==> self.particles@[j] == old(self)@[j],
            decreases self.particles.len() - i,
        {
            let mut p: Particle = self.particles[i];
            p.move_to_random(size);
            self.particles.set(i, p);
            i += 1;
        }
    }

    /// Moves every particle that has left the window to a random point of it, and
    /// leaves the others as they are.
    pub fn relocate_strays(&mut self, size: &WindowSize)
        ensures
            final(self)@.len() == old(self)@.len(),
            forall|i: int|
                0 <= i < old(self)@.len() && !old(self)@[i].outside(*size) ==> final(self)@[i]
                    == old(self)@[i],
            forall|i: int|
                0 <= i < old(self)@.len() && old(self)@[i].outside(*size) ==> (
                #[trigger] final(self)@[i]).is_moved(old(self)@[i], *size),
    {
        let mut i: usize = 0;
        while i < self.particles.len()
            invariant
                i <= self.particles@.len(),
                self.particles@.len() == old(self)@.len(),
                forall|j: int|
                    0 <= j < i && !old(self)@[j].outside(*size) ==> self.particles@[j] == old(
                        self,
                    )@[j],
                forall|j: int|
                    0 <= j < i && old(self)@[j].outside(*size) ==> (
                    #[trigger] self.particles@[j]).is_moved(old(self)@[j], *size),
                forall|j: int| i <= j < old(self)@.len() ==> self.particles@[j] == old(self)@[j],
            decreases self.particles.len() - i,
        {
            let mut p: Particle = self.particles[i];
            p.relocate_if_outside(size);
            self.particles.set(i, p);
            i += 1;
        }
    }

    /// For each particle the point at which the noise pattern is read for it.
    pub fn sample_points(&self, noise: &NoiseField, size: &WindowSize) -> (points: Vec<Vec2>)
        ensures
            points@.len() == self@.len(),
            forall|i: int|
                0 <= i < self@.len() ==> points@[i] == noise.sample_point(
                    self@[i].x,
                    self@[i].y,
                    *size,
                ),
    {
        let mut points: Vec<Vec2> = Vec::new();
        let mut i: usize = 0;
        while i < self.particles.len()
            invariant
                i <= self.particles@.len(),
                points@.len() == i,
                forall|j: int|
                    0 <= j < i ==> points@[j] == noise.sample_point(
                        self.particles@[j].x,
                        self.particles@[j].y,
                        *size,
                    ),
            decreases self.particles.len() - i,
        {
            let p: Particle = self.particles[i];
            points.push(noise.locate(p.x, p.y, size));
            i += 1;
        }
        points
    }

    /// Moves each particle one step along its heading at the given speed. The
    /// headings go by place; a particle without one stays.
    pub fn advance_all(&mut self, headings: &Vec<Vec2>, speed: i64)
        ensures
            final(self)@.len() == old(self)@.len(),
            forall|i: int|
                0 <= i < old(self)@.len() && i < headings@.len() ==> final(self)@[i] == old(
                    self,
                )@[i].advanced(headings@[i], speed),
            forall|i: int|
                headings@.len() <= i < old(self)@.len() ==> final(self)@[i] == old(self)@[i],
    {
        let mut i: usize = 0;
        while i < self.particles.len() && i < headings.len()
            invariant
                i <= headings@.len(),
                self.particles@.len() == old(self)@.len(),
                forall|j: int|
                    0 <= j < i ==> self.particles@[j] == old(self)@[j].advanced(
                        headings@[j],
                        speed,
                    ),
                forall|j: int| i <= j < old(self)@.len() ==> self.particles@[j] == old(self)@[j],
            decreases self.particles.len() - i,
        {
            let mut p: Particle = self.particles[i];
            p.advance(headings[i], speed);
            self.particles.set(i, p);
            i += 1;
        }
    }

    /// One step of every particle under the force of the field at its place.
    pub fn drive_all(&mut self, field: &VectorField, dt: i64, speed: i64, size: &WindowSize)
        ensures
            final(self)@.len() == old(self)@.len(),
            forall|i: int|
                0 <= i < old(self)@.len() ==> final(self)@[i] == old(self)@[i].driven(
                    field.cells()[field.nearest(old(self)@[i].x as int, old(self)@[i].y as int)],
                    dt,
                    speed,
                    *size,
                ),
    {
        let mut i: usize = 0;
        while i < self.particles.len()
            invariant
                self.particles@.len() == old(self)@.len(),
                forall|j: int|
                    0 <= j < i ==> self.particles@[j] == old(self)@[j].driven(
                        field.cells()[field.nearest(
                            old(self)@[j].x as int,
                            old(self)@[j].y as int,
                        )],
                        dt,
                        speed,
                        *size,
                    ),
                forall|j: int| i <= j < old(self)@.len() ==> self.particles@[j] == old(self)@[j],
            decreases self.particles.len() - i,
        {
            let mut p: Particle = self.particles[i];
            let force: Vec2 = field.nearest_vector(p.x, p.y);
            p.drive(force, dt, speed, size);
            self.particles.set(i, p);
            i += 1;
        }
    }

    /// Removes the particles that wait to be replaced, keeping the order of the
    /// others, and says how many it removed.
    pub fn remove_flagged(&mut self) -> (removed: usize)
        ensures
            final(self)@ == old(self)@.filter(settled()),
            removed == old(self)@.len() - final(self)@.len(),
    {
        let mut kept: Vec<Particle> = Vec::new();
        let mut i: usize = 0;
        assert(self.particles@.take(0).filter(settled()) == Seq::<Particle>::empty()) by {
            reveal(Seq::filter);
        }
        while i < self.particles.len()
            invariant
                i <= self.particles@.len(),
                self.particles@ == old(self)@,
                kept@ == self.particles@.take(i as int).filter(settled()),
                kept@.len() <= i,
            decreases self.particles.len() - i,
        {
            let p: Particle = self.particles[i];
            proof {
                let before = self.particles@.take(i as int);
                let after = self.particles@.take(i + 1);
                assert(after.drop_last() == before);
                assert(after.last() == p);
                reveal(Seq::filter);
            }
            if !p.pending_respawn {
                kept.push(p);
            }
            i += 1;
        }
        assert(self.particles@.take(i as int) == self.particles@);
        let removed: usize = self.particles.len() - kept.len();
        self.particles = kept;
        removed
    }

    /// Replaces every particle that waits to be replaced: the marked ones leave,
    /// and as many fresh ones, each at rest at a random point of the window, join
    /// as the youngest.
    pub fn replace_if_flagged(&mut self, size: &WindowSize)
        ensures
            final(self)@.len() == old(self)@.len(),
            final(self)@.take(old(self)@.filter(settled()).len() as int) == old(self)@.filter(
                settled(),
            ),
            forall|i: int|
                old(self)@.filter(settled()).len() <= i < final(self)@.len() ==> (
                #[trigger] final(self)@[i]).is_fresh(*size),
    {
        let removed: usize = self.remove_flagged();
        self.add_particles(removed, size);
    }
}

/// Repeated adjustment fills a population that is too small by one particle a
/// frame until it meets the target, cuts one that is too large to the target in
/// the first frame, and then holds the target.
pub proof fn lemma_count_settles(count: nat, target: nat, frames: nat)
    ensures
        count <= target && frames <= target - count ==> count_after(count, target, frames) == count
            + frames,
        count <= target && frames >= target - count ==> count_after(count, target, frames)
            == target,
        count > target && frames >= 1 ==> count_after(count, target, frames) == target,
    decreases frames,
{
    if frames > 0 {
        lemma_count_settles(next_count(count, target), target, (frames - 1) as nat);
    }
}

} // verus!
