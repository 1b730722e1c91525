use flowfield::field::VectorField;
use flowfield::fixed::{Vec2, UNIT};
use flowfield::noise::{NoiseField, Rescale};
use flowfield::particle::{place, Particle};
use flowfield::store::ParticleStore;
use flowfield::window::WindowSize;
use libnoise::{Generator, Source};

fn to_fixed(v: f64) -> i64 {
    (v * UNIT as f64).round() as i64
}

fn to_float(v: i64) -> f64 {
    v as f64 / UNIT as f64
}

fn window() -> WindowSize {
    WindowSize::new(1200 * UNIT, 800 * UNIT)
}

/// The heading that the noise pattern gives at a point: a full turn times the sample.
fn heading_at(seed: u64, point: Vec2) -> Vec2 {
    let sample = Source::<2>::perlin(seed).sample([to_float(point.x), to_float(point.y)]);
    let angle = sample * 2.0 * std::f64::consts::PI;
    Vec2 { x: to_fixed(angle.cos()), y: to_fixed(angle.sin()) }
}

#[test]
fn placing_goes_from_one_edge_to_the_other() {
    assert_eq!(place(0, 1200 * UNIT), -600 * UNIT);
    assert_eq!(place(1 << 31, 1200 * UNIT), 0);
    assert_eq!(place(1 << 30, 1200 * UNIT), -300 * UNIT);
    assert_eq!(place(u32::MAX, 1200 * UNIT), 600 * UNIT - 1200);
    assert_eq!(place(u32::MAX, 0), 0);
    assert_eq!(place(u32::MAX, 7), 3);
    assert_eq!(place(0, 7), -3);
}

#[test]
fn scatter_places_both_coordinates_at_rest() {
    let p = Particle::scatter(1 << 30, 3 << 30, &window());
    assert_eq!(p, Particle { x: -300 * UNIT, y: 200 * UNIT, velocity: Vec2 { x: 0, y: 0 }, pending_respawn: false });
}

#[test]
fn random_particles_lie_in_the_window_and_vary() {
    let size = window();
    let first = Particle::random(&size);
    let mut varied = false;
    for _ in 0..500 {
        let p = Particle::random(&size);
        assert!(-600 * UNIT <= p.x && p.x < 600 * UNIT);
        assert!(-400 * UNIT <= p.y && p.y < 400 * UNIT);
        assert_eq!(p.velocity, Vec2 { x: 0, y: 0 });
        assert!(!p.pending_respawn);
        if p != first {
            varied = true;
        }
    }
    assert!(varied);
}

#[test]
fn a_particle_in_the_window_is_not_relocated() {
    let size = window();
    let mut p = Particle::at(599 * UNIT, -399 * UNIT);
    p.relocate(&size, 7, 9);
    assert_eq!(p, Particle::at(599 * UNIT, -399 * UNIT));
    p.relocate_if_outside(&size);
    assert_eq!(p, Particle::at(599 * UNIT, -399 * UNIT));
}

#[test]
fn a_particle_on_the_edge_is_relocated() {
    let size = window();
    let mut p = Particle::at(600 * UNIT, 0);
    p.velocity = Vec2 { x: 5, y: 6 };
    p.relocate(&size, 1 << 31, 1 << 30);
    assert_eq!(p.x, 0);
    assert_eq!(p.y, -200 * UNIT);
    assert_eq!(p.velocity, Vec2 { x: 5, y: 6 });
    let mut q = Particle::at(0, -400 * UNIT);
    q.relocate_if_outside(&size);
    assert!(-600 * UNIT <= q.x && q.x < 600 * UNIT);
    assert!(-400 * UNIT <= q.y && q.y < 400 * UNIT);
}

#[test]
fn advance_adds_the_heading_times_the_speed() {
    let mut p = Particle::at(10 * UNIT, -10 * UNIT);
    p.advance(Vec2 { x: UNIT, y: 0 }, UNIT);
    assert_eq!(p, Particle::at(11 * UNIT, -10 * UNIT));
    p.advance(Vec2 { x: -UNIT / 2, y: UNIT / 4 }, 4 * UNIT);
    assert_eq!(p, Particle::at(9 * UNIT, -9 * UNIT));
    p.advance(Vec2 { x: UNIT, y: UNIT }, 0);
    assert_eq!(p, Particle::at(9 * UNIT, -9 * UNIT));
}

#[test]
fn advance_saturates() {
    let mut p = Particle::at(i64::MAX - 1, i64::MIN + 1);
    p.advance(Vec2 { x: UNIT, y: -UNIT }, UNIT);
    assert_eq!(p, Particle::at(i64::MAX, i64::MIN));
}

#[test]
fn a_step_from_the_centre_has_the_length_of_the_speed() {
    let size = WindowSize::new(100 * UNIT, 100 * UNIT);
    let noise = NoiseField::new(42, to_fixed(0.001));
    for speed in [UNIT, 3 * UNIT, UNIT / 2] {
        let mut p = Particle::at(0, 0);
        p.relocate_if_outside(&size);
        assert_eq!(p, Particle::at(0, 0));
        let heading = heading_at(noise.seed, noise.locate(p.x, p.y, &size));
        p.advance(heading, speed);
        let length = (to_float(p.x).powi(2) + to_float(p.y).powi(2)).sqrt();
        assert!((length - to_float(speed)).abs() < 1e-6);
    }
}

#[test]
fn the_pattern_is_read_from_the_lower_left_corner() {
    let noise = NoiseField::new(42, UNIT);
    let size = window();
    assert_eq!(noise.locate(0, 0, &size), Vec2 { x: 600 * UNIT, y: 400 * UNIT });
    assert_eq!(noise.locate(-600 * UNIT, -400 * UNIT, &size), Vec2 { x: 0, y: 0 });
    let half = NoiseField::new(42, UNIT / 2);
    assert_eq!(half.locate(100 * UNIT, -100 * UNIT, &size), Vec2 { x: 350 * UNIT, y: 150 * UNIT });
}

#[test]
fn reading_the_pattern_twice_gives_the_same() {
    let noise = NoiseField::new(42, to_fixed(0.001));
    let size = window();
    for (x, y) in [(0, 0), (17 * UNIT, -250 * UNIT), (-599 * UNIT, 399 * UNIT)] {
        let first = noise.locate(x, y, &size);
        let second = noise.locate(x, y, &size);
        assert_eq!(first, second);
        assert_eq!(heading_at(noise.seed, first), heading_at(noise.seed, second));
    }
}

#[test]
fn one_step_in_the_window_of_twelve_hundred_by_eight_hundred() {
    let size = window();
    let noise = NoiseField::new(42, to_fixed(0.001));
    let mut store = ParticleStore::new();
    store.push(Particle::at(0, 0));
    store.relocate_strays(&size);
    let points = store.sample_points(&noise, &size);
    assert_eq!(points.len(), 1);
    assert!((to_float(points[0].x) - 0.6).abs() < 1e-6);
    assert!((to_float(points[0].y) - 0.4).abs() < 1e-6);
    let headings: Vec<Vec2> = points.iter().map(|p| heading_at(noise.seed, *p)).collect();
    store.advance_all(&headings, UNIT);
    let moved = store.get(0).unwrap();

    let angle = Source::<2>::perlin(42u64).sample([0.6, 0.4]) * 2.0 * std::f64::consts::PI;
    assert!((to_float(moved.x) - angle.cos()).abs() < 1e-5);
    assert!((to_float(moved.y) - angle.sin()).abs() < 1e-5);
    assert_eq!(moved.velocity, Vec2 { x: 0, y: 0 });
}

#[test]
fn rescaling_halves_and_doubles() {
    let mut noise = NoiseField::new(9, 12);
    noise.rescale(Rescale::Halve);
    assert_eq!(noise, NoiseField { seed: 9, scale: 6 });
    noise.rescale(Rescale::Halve);
    noise.rescale(Rescale::Halve);
    assert_eq!(noise.scale, 1);
    noise.rescale(Rescale::Halve);
    assert_eq!(noise.scale, 0);
    let mut fine = NoiseField::new(9, 12);
    fine.rescale(Rescale::Double);
    assert_eq!(fine, NoiseField { seed: 9, scale: 24 });
    let mut large = NoiseField::new(9, i64::MAX / 2 + 1);
    large.rescale(Rescale::Double);
    assert_eq!(large.scale, i64::MAX);
    let mut negative = NoiseField::new(9, -3);
    negative.rescale(Rescale::Halve);
    assert_eq!(negative.scale, -1);
}

#[test]
fn reseeding_keeps_the_scale() {
    let mut noise = NoiseField::new(1, 77);
    noise.reseed(2);
    assert_eq!(noise, NoiseField { seed: 2, scale: 77 });
}

#[test]
fn relocate_strays_moves_only_the_strays() {
    let size = window();
    let mut store = ParticleStore::new();
    store.push(Particle::at(0, 0));
    store.push(Particle::at(700 * UNIT, 0));
    store.push(Particle::at(5 * UNIT, 5 * UNIT));
    store.push(Particle::at(0, -400 * UNIT));
    store.relocate_strays(&size);
    assert_eq!(store.len(), 4);
    assert_eq!(store.get(0), Some(Particle::at(0, 0)));
    assert_eq!(store.get(2), Some(Particle::at(5 * UNIT, 5 * UNIT)));
    for i in [1, 3] {
        let p = store.get(i).unwrap();
        assert!(-600 * UNIT <= p.x && p.x < 600 * UNIT);
        assert!(-400 * UNIT <= p.y && p.y < 400 * UNIT);
    }
}

#[test]
fn advance_all_gives_each_particle_its_heading() {
    let mut store = ParticleStore::new();
    store.push(Particle::at(0, 0));
    store.push(Particle::at(UNIT, UNIT));
    store.push(Particle::at(2 * UNIT, 2 * UNIT));
    store.advance_all(&vec![Vec2 { x: UNIT, y: 0 }, Vec2 { x: 0, y: -UNIT }], 2 * UNIT);
    assert_eq!(store.get(0), Some(Particle::at(2 * UNIT, 0)));
    assert_eq!(store.get(1), Some(Particle::at(UNIT, -UNIT)));
    assert_eq!(store.get(2), Some(Particle::at(2 * UNIT, 2 * UNIT)));
    store.advance_all(&vec![Vec2 { x: UNIT, y: 0 }; 5], UNIT);
    assert_eq!(store.get(0), Some(Particle::at(3 * UNIT, 0)));
    assert_eq!(store.get(2), Some(Particle::at(3 * UNIT, 2 * UNIT)));
    assert_eq!(store.len(), 3);
}

#[test]
fn a_force_adds_to_the_velocity_and_the_velocity_to_the_position() {
    let size = window();
    let mut p = Particle::at(0, 0);
    p.velocity = Vec2 { x: UNIT, y: 0 };
    p.drive(Vec2 { x: 2 * UNIT, y: -4 * UNIT }, UNIT / 2, 3 * UNIT, &size);
    assert_eq!(p.velocity, Vec2 { x: 2 * UNIT, y: -2 * UNIT });
    assert_eq!(p.x, 3 * UNIT);
    assert_eq!(p.y, -3 * UNIT);
    assert!(!p.pending_respawn);
}

#[test]
fn a_particle_outside_is_marked_and_stays() {
    let size = window();
    let mut p = Particle::at(600 * UNIT, 0);
    p.velocity = Vec2 { x: UNIT, y: UNIT };
    p.drive(Vec2 { x: 2 * UNIT, y: -4 * UNIT }, UNIT, UNIT, &size);
    assert_eq!(p.x, 600 * UNIT);
    assert_eq!(p.y, 0);
    assert_eq!(p.velocity, Vec2 { x: UNIT, y: UNIT });
    assert!(p.pending_respawn);
}

#[test]
fn under_a_constant_force_the_velocity_grows_evenly() {
    let size = window();
    let force = Vec2 { x: UNIT / 4, y: -UNIT / 8 };
    let dt = UNIT / 16;
    let mut p = Particle::at(0, 0);
    for n in 1..=40i64 {
        p.drive(force, dt, UNIT, &size);
        assert!(!p.pending_respawn);
        assert_eq!(p.velocity, Vec2 { x: n * (UNIT / 64), y: -n * (UNIT / 128) });
    }
}

#[test]
fn drive_all_uses_the_nearest_force() {
    let size = WindowSize::new(8 * UNIT, 8 * UNIT);
    let directions = vec![
        Vec2 { x: UNIT, y: 0 },
        Vec2 { x: 0, y: UNIT },
        Vec2 { x: -UNIT, y: 0 },
        Vec2 { x: 0, y: -UNIT },
    ];
    let field = VectorField::new(2, 2, &size, &directions, 2 * UNIT).unwrap();
    let mut store = ParticleStore::new();
    store.push(Particle::at(-3 * UNIT, -3 * UNIT));
    store.push(Particle::at(UNIT, UNIT));
    store.push(Particle::at(4 * UNIT, 0));
    store.drive_all(&field, UNIT / 2, UNIT, &size);
    let first = store.get(0).unwrap();
    assert_eq!(first.velocity, Vec2 { x: UNIT, y: 0 });
    assert_eq!((first.x, first.y), (-3 * UNIT + UNIT / 2, -3 * UNIT));
    let second = store.get(1).unwrap();
    assert_eq!(second.velocity, Vec2 { x: 0, y: -UNIT });
    assert_eq!((second.x, second.y), (UNIT, UNIT - UNIT / 2));
    let third = store.get(2).unwrap();
    assert!(third.pending_respawn);
    assert_eq!((third.x, third.y), (4 * UNIT, 0));
    store.replace_if_flagged(&size);
    assert_eq!(store.len(), 3);
    assert_eq!(store.get(0), Some(first));
    assert_eq!(store.get(1), Some(second));
    assert!(!store.get(2).unwrap().pending_respawn);
}

#[test]
fn reset_positions_scatters_every_particle() {
    let size = window();
    let mut store = ParticleStore::new();
    for i in 0..50i64 {
        let mut p = Particle::at(5000 * UNIT, 5000 * UNIT);
        p.velocity = Vec2 { x: i, y: -i };
        p.pending_respawn = i % 2 == 0;
        store.push(p);
    }
    store.reset_positions(&size);
    assert_eq!(store.len(), 50);
    for i in 0..50usize {
        let p = store.get(i).unwrap();
        assert!(-600 * UNIT <= p.x && p.x < 600 * UNIT);
        assert!(-400 * UNIT <= p.y && p.y < 400 * UNIT);
        assert_eq!(p.velocity, Vec2 { x: i as i64, y: -(i as i64) });
        assert_eq!(p.pending_respawn, i % 2 == 0);
    }
}

#[test]
fn a_step_leaves_the_window_by_no_more_than_the_speed() {
    let size = window();
    let mut p = Particle::at(600 * UNIT - 1, -400 * UNIT + 1);
    p.relocate(&size, 0, 0);
    p.advance(Vec2 { x: UNIT, y: -UNIT }, 2 * UNIT);
    assert_eq!(p, Particle::at(602 * UNIT - 1, -402 * UNIT + 1));
    assert!(p.is_outside(&size));
    assert!(p.x <= 600 * UNIT + 2 * UNIT && p.y >= -400 * UNIT - 2 * UNIT);

    let mut q = Particle::at(5000 * UNIT, 5000 * UNIT);
    q.relocate(&size, u32::MAX, u32::MAX);
    q.advance(Vec2 { x: UNIT, y: UNIT }, 2 * UNIT);
    assert_eq!(q, Particle::at(602 * UNIT - 1200, 402 * UNIT - 800));
}

#[test]
fn a_particle_moved_to_the_lowest_fraction_lies_on_the_edge() {
    let size = window();
    let mut p = Particle::at(5000 * UNIT, 0);
    p.relocate(&size, 0, 1 << 31);
    assert_eq!(p, Particle::at(-600 * UNIT, 0));
    assert!(p.is_outside(&size));
}
