use flowfield::color::{Color, ColorScheme, LUMINOSITY};
use flowfield::control::{keyboard_input, Keys};
use flowfield::fixed::UNIT;
use flowfield::noise::NoiseField;
use flowfield::particle::Particle;
use flowfield::store::ParticleStore;
use flowfield::window::WindowSize;

struct Scene {
    size: WindowSize,
    noise: NoiseField,
    colors: ColorScheme,
    particles: ParticleStore,
}

fn scene() -> Scene {
    let mut particles = ParticleStore::new();
    for i in 0..5i64 {
        particles.push(Particle::at(900 * UNIT + i, 900 * UNIT));
    }
    Scene {
        size: WindowSize::new(1200 * UNIT, 800 * UNIT),
        noise: NoiseField::new(42, 1 << 22),
        colors: ColorScheme::custom(
            Color { red: UNIT / 2, green: 0, blue: 0 },
            Color { red: 0, green: UNIT, blue: UNIT / 4 },
            20 * UNIT,
        ),
        particles,
    }
}

fn press(s: &mut Scene, keys: Keys, seed: u64) -> bool {
    keyboard_input(&keys, seed, &s.size, &mut s.noise, &mut s.colors, &mut s.particles)
}

fn untouched_particles(s: &Scene) -> bool {
    (0..5).all(|i| s.particles.get(i) == Some(Particle::at(900 * UNIT + i as i64, 900 * UNIT)))
        && s.particles.len() == 5
}

#[test]
fn no_key_changes_nothing() {
    let mut s = scene();
    let before = (s.noise, s.colors);
    assert!(!press(&mut s, Keys::released(), 7));
    assert_eq!((s.noise, s.colors), before);
    assert!(untouched_particles(&s));
}

#[test]
fn the_reseed_key_takes_the_given_seed() {
    let mut s = scene();
    let refresh = press(&mut s, Keys { reseed: true, ..Keys::released() }, 1234);
    assert!(!refresh);
    assert_eq!(s.noise, NoiseField { seed: 1234, scale: 1 << 22 });
    assert_eq!(s.colors, scene().colors);
    assert!(untouched_particles(&s));
}

#[test]
fn the_scale_keys_halve_and_double() {
    let mut s = scene();
    assert!(!press(&mut s, Keys { scale_up: true, ..Keys::released() }, 0));
    assert_eq!(s.noise, NoiseField { seed: 42, scale: 1 << 21 });
    assert!(!press(&mut s, Keys { scale_down: true, ..Keys::released() }, 0));
    assert!(!press(&mut s, Keys { scale_down: true, ..Keys::released() }, 0));
    assert_eq!(s.noise, NoiseField { seed: 42, scale: 1 << 23 });
}

#[test]
fn halving_wins_over_doubling() {
    let mut s = scene();
    press(&mut s, Keys { scale_up: true, scale_down: true, ..Keys::released() }, 0);
    assert_eq!(s.noise.scale, 1 << 21);
}

#[test]
fn the_reset_key_scatters_the_particles() {
    let mut s = scene();
    assert!(press(&mut s, Keys { reset: true, ..Keys::released() }, 0));
    assert_eq!(s.particles.len(), 5);
    for i in 0..5 {
        let p = s.particles.get(i).unwrap();
        assert!(-600 * UNIT <= p.x && p.x < 600 * UNIT);
        assert!(-400 * UNIT <= p.y && p.y < 400 * UNIT);
    }
    assert_eq!(s.colors, scene().colors);
    assert_eq!(s.noise, scene().noise);
}

#[test]
fn the_invert_key_exchanges_the_colours() {
    let mut s = scene();
    assert!(press(&mut s, Keys { invert: true, ..Keys::released() }, 0));
    assert_eq!(s.colors, scene().colors.inverse());
    assert!(press(&mut s, Keys { invert: true, ..Keys::released() }, 0));
    assert_eq!(s.colors, scene().colors);
    assert!(untouched_particles(&s));
}

#[test]
fn the_new_colour_key_draws_a_scheme() {
    let mut s = scene();
    s.colors.luminosity = 3 * UNIT;
    assert!(press(&mut s, Keys { new_colors: true, ..Keys::released() }, 0));
    assert_eq!(s.colors.luminosity, LUMINOSITY);
    for c in [s.colors.background, s.colors.particle] {
        for part in [c.red, c.green, c.blue] {
            assert!(0 <= part && part < UNIT);
        }
    }
    assert!(untouched_particles(&s));
}

#[test]
fn the_luminosity_keys_move_by_one() {
    let mut s = scene();
    assert!(press(&mut s, Keys { dimmer: true, ..Keys::released() }, 0));
    assert_eq!(s.colors.luminosity, 19 * UNIT);
    assert!(press(&mut s, Keys { brighter: true, ..Keys::released() }, 0));
    assert!(press(&mut s, Keys { brighter: true, ..Keys::released() }, 0));
    assert_eq!(s.colors.luminosity, 21 * UNIT);
    assert_eq!(s.colors.background, scene().colors.background);
    assert_eq!(s.colors.particle, scene().colors.particle);
}

#[test]
fn dimmer_wins_over_brighter() {
    let mut s = scene();
    assert!(press(&mut s, Keys { dimmer: true, brighter: true, ..Keys::released() }, 0));
    assert_eq!(s.colors.luminosity, 19 * UNIT);
}

#[test]
fn luminosity_can_be_driven_below_zero() {
    let mut s = scene();
    for _ in 0..25 {
        press(&mut s, Keys { dimmer: true, ..Keys::released() }, 0);
    }
    assert_eq!(s.colors.luminosity, -5 * UNIT);
}

#[test]
fn keys_apply_in_their_order() {
    let mut s = scene();
    let keys = Keys { reseed: true, scale_down: true, invert: true, brighter: true, ..Keys::released() };
    assert!(press(&mut s, keys, 99));
    assert_eq!(s.noise, NoiseField { seed: 99, scale: 1 << 23 });
    assert_eq!(s.colors, scene().colors.inverse().brighter());
    let mut t = scene();
    let drawn = Keys { invert: true, new_colors: true, dimmer: true, ..Keys::released() };
    assert!(press(&mut t, drawn, 0));
    assert_eq!(t.colors.luminosity, 19 * UNIT);
}

#[test]
fn given_colours_are_applied_exactly() {
    let drawn = ColorScheme::default();
    let mut colors = scene().colors;
    let keys = Keys { invert: true, new_colors: true, dimmer: true, ..Keys::released() };
    keys.apply_to_colors(&mut colors, drawn);
    assert_eq!(colors, drawn.dimmer());
    let mut kept = scene().colors;
    Keys { invert: true, ..Keys::released() }.apply_to_colors(&mut kept, drawn);
    assert_eq!(kept, scene().colors.inverse());
    assert!(keys.refreshes());
    assert!(!Keys { reseed: true, scale_up: true, ..Keys::released() }.refreshes());
    let mut noise = NoiseField::new(1, 8);
    Keys { reseed: true, scale_up: true, ..Keys::released() }.apply_to_noise(&mut noise, 5);
    assert_eq!(noise, NoiseField { seed: 5, scale: 4 });
}
