use lander::gfx::DrawCmd;
use lander::noise::PSNG;
use lander::polygon::Point;
use lander::ship::Ship;
use lander::surface::{
    covers, elevation, level, place_pad, Surface, CRASHED, LANDED, NO_CONTACT, PAD_COUNT, PAD_SZ,
    SHEARED, SPAWN, TOO_FAST, TOO_STEEP,
};

const UP: i64 = -1_570_796;

fn flat() -> [i64; 160] {
    [0; 160]
}

/// A terrain at zoom one for a craft at depth fifty whose column 80 lies in
/// the middle of its first pad. Off the pads the ground is 20 high, on them
/// `pad_height`.
fn terrain_with_pad_below(seed: u32, pad_noise: i64) -> (Surface, i64) {
    let mut rng = PSNG::new(0);
    let mut surface = Surface::new(seed, &mut rng);
    let x_offset = (surface.pad_location(0) + PAD_SZ / 2) * 40;
    surface.draw(x_offset, 50_000_000, &flat(), &[pad_noise; 4]);
    (surface, x_offset)
}

fn resting_ship() -> Ship {
    let mut ship = Ship::new();
    ship.set_velocity(Point { x: 0, y: 0 });
    ship.set_angle(UP);
    ship
}

#[test]
fn pads_are_spread_and_kept_off_the_spawn_column() {
    assert_eq!(place_pad(0), 0);
    assert_eq!(place_pad(100_000), 1_750_000);
    assert_eq!(place_pad(257_142), 4_499_985);
    assert_eq!(place_pad(257_143), 5_000_002);
    assert_eq!(place_pad(500_000), 9_250_000);
    assert_eq!(place_pad(999_999), 17_999_982);
}

#[test]
fn no_generated_pad_spans_the_spawn_column() {
    for seed in 0..500u32 {
        let mut rng = PSNG::new(1);
        let surface = Surface::new(seed, &mut rng);
        for i in 0..PAD_COUNT {
            let p = surface.pad_location(i);
            assert!(0 <= p && p < 18_000_000);
            assert!(!(p < SPAWN && SPAWN < p + PAD_SZ), "seed {} pad {}", seed, p);
            assert!(!covers(p, SPAWN));
        }
    }
}

#[test]
fn generation_is_a_function_of_the_seed() {
    for seed in [0u32, 1, 666_666, u32::MAX] {
        let mut rng_a = PSNG::new(5);
        let mut rng_b = PSNG::new(99);
        rng_b.next();
        let a = Surface::new(seed, &mut rng_a);
        let b = Surface::new(seed, &mut rng_b);
        for i in 0..PAD_COUNT {
            assert_eq!(a.pad_location(i), b.pad_location(i));
            assert_eq!(a.pad_coordinate(i), b.pad_coordinate(i));
        }
        for x in 0..160 {
            assert_eq!(a.height(x), b.height(x));
            assert_eq!(a.is_pad(x), b.is_pad(x));
        }
        assert_eq!(a.seed(), seed as u64);
        assert_eq!(a.scale(), b.scale());
        assert_eq!(rng_a.next(), rng_b.next());
    }
}

#[test]
fn drawing_twice_from_the_same_samples_gives_the_same_terrain() {
    let mut noise = [0i64; 160];
    for x in 0..160 {
        noise[x] = (x as i64 * 7919) % 2_000_000 - 1_000_000;
    }
    let mut rng = PSNG::new(0);
    let mut a = Surface::new(31, &mut rng);
    let mut b = Surface::new(31, &mut rng);
    let pads = [100_000, -200_000, 300_000, 0];
    let frame_a = a.draw(123_456_789, 40_000_000, &noise, &pads);
    let frame_b = b.draw(123_456_789, 40_000_000, &noise, &pads);
    assert_eq!(frame_a, frame_b);
    for x in 0..160 {
        assert_eq!(a.height(x), b.height(x));
        assert_eq!(a.is_pad(x), b.is_pad(x));
    }
}

#[test]
fn the_pads_follow_the_stream_of_the_seed() {
    let mut expected = PSNG::new(42);
    let mut rng = PSNG::new(0);
    let surface = Surface::new(42, &mut rng);
    for i in 0..PAD_COUNT {
        assert_eq!(surface.pad_location(i), place_pad(expected.next()));
    }
    assert_eq!(rng.next(), expected.next());
}

#[test]
fn a_new_terrain_is_flat_at_zoom_one() {
    let mut rng = PSNG::new(0);
    let surface = Surface::new(7, &mut rng);
    assert_eq!(surface.scale(), 1_000_000);
    for x in 0..160 {
        assert_eq!(surface.height(x), 0);
        assert!(!surface.is_pad(x));
    }
}

#[test]
fn the_zoom_is_kept_within_its_limits() {
    let mut rng = PSNG::new(0);
    let mut surface = Surface::new(7, &mut rng);
    surface.set_scale(300_000);
    assert_eq!(surface.scale(), 300_000);
    surface.set_scale(0);
    assert_eq!(surface.scale(), 200_000);
    surface.set_scale(-5_000_000);
    assert_eq!(surface.scale(), 200_000);
    surface.set_scale(9_000_000);
    assert_eq!(surface.scale(), 2_000_000);
}

#[test]
fn column_coordinates_at_zoom_one() {
    let mut rng = PSNG::new(0);
    let surface = Surface::new(7, &mut rng);
    assert_eq!(surface.column_coordinate(200_000_000, 80), 5_000_000);
    assert_eq!(surface.column_coordinate(200_000_000, 0), 3_000_000);
    assert_eq!(surface.column_coordinate(200_000_000, 159), 6_975_000);
    assert_eq!(surface.column_coordinate(0, 79), -25_000);
}

#[test]
fn column_coordinates_spread_as_the_view_zooms_out() {
    let mut rng = PSNG::new(0);
    let mut surface = Surface::new(7, &mut rng);
    surface.set_scale(300_000);
    assert_eq!(surface.column_coordinate(200_000_000, 80), 5_000_000);
    assert_eq!(surface.column_coordinate(200_000_000, 0), -1_666_666);
    assert_eq!(surface.column_coordinate(200_000_000, 92), 6_000_000);
    surface.set_scale(2_000_000);
    assert_eq!(surface.column_coordinate(200_000_000, 0), 4_000_000);
}

#[test]
fn a_pad_takes_its_height_from_its_far_end() {
    let mut rng = PSNG::new(0);
    let surface = Surface::new(11, &mut rng);
    for i in 0..PAD_COUNT {
        assert_eq!(surface.pad_coordinate(i), surface.pad_location(i) + 500_000);
    }
}

#[test]
fn elevation_follows_the_formula() {
    // ((n + 1) / 2) * 160 * scale + y - 110 * scale
    assert_eq!(elevation(0, 1_000_000, 50_000_000), 20_000_000);
    assert_eq!(elevation(1_000_000, 1_000_000, 50_000_000), 100_000_000);
    assert_eq!(elevation(-1_000_000, 1_000_000, 50_000_000), -60_000_000);
    assert_eq!(elevation(0, 300_000, 15_000_000), 6_000_000);
    assert_eq!(elevation(500_000, 2_000_000, 100_000_000), 120_000_000);
    assert_eq!(elevation(250_000, 1_000_000, 0), -10_000_000);
}

#[test]
fn level_drops_the_fraction_and_stays_within_sixteen_bits() {
    assert_eq!(level(20_999_999), 20);
    assert_eq!(level(-999_999), 0);
    assert_eq!(level(-1_000_000), -1);
    assert_eq!(level(40_000_000_000), i16::MAX);
    assert_eq!(level(-40_000_000_000), i16::MIN);
}

#[test]
fn a_pad_spans_the_open_interval_after_its_location() {
    assert!(!covers(3_000_000, 3_000_000));
    assert!(covers(3_000_000, 3_000_001));
    assert!(covers(3_000_000, 3_499_999));
    assert!(!covers(3_000_000, 3_500_000));
    assert!(!covers(3_000_000, 2_999_999));
}

#[test]
fn draw_stores_heights_and_marks_pad_columns() {
    let (surface, x_offset) = terrain_with_pad_below(3, 1_000_000);
    let mut pad_columns = 0;
    for x in 0..160 {
        let xz = surface.column_coordinate(x_offset, x);
        let on_pad = (0..PAD_COUNT).any(|i| covers(surface.pad_location(i), xz));
        assert_eq!(surface.is_pad(x), on_pad, "column {}", x);
        assert_eq!(surface.height(x), if on_pad { 100 } else { 20 }, "column {}", x);
        if on_pad {
            pad_columns += 1;
        }
    }
    assert!(surface.is_pad(80));
    assert!(surface.is_pad(71) && surface.is_pad(89));
    assert!(pad_columns >= 19);
}

#[test]
fn later_pads_override_earlier_ones() {
    let mut rng = PSNG::new(0);
    let mut seed = 0u32;
    // Look for a terrain in which two pads overlap.
    let found = loop {
        let surface = Surface::new(seed, &mut rng);
        let mut pair = None;
        for i in 0..PAD_COUNT {
            for j in (i + 1)..PAD_COUNT {
                let (a, b) = (surface.pad_location(i), surface.pad_location(j));
                if (a - b).abs() < 400_000 {
                    pair = Some((i, j));
                }
            }
        }
        if let Some(p) = pair {
            break (surface, p);
        }
        seed += 1;
        assert!(seed < 10_000);
    };
    let (mut surface, (i, j)) = found;
    let shared = surface.pad_location(i).max(surface.pad_location(j)) + 50_000;
    let mut pad_noise = [0i64; 4];
    pad_noise[i] = -500_000;
    pad_noise[j] = 500_000;
    surface.draw(shared * 40, 50_000_000, &flat(), &pad_noise);
    assert!(surface.is_pad(80));
    assert_eq!(surface.height(80), level(elevation(500_000, 1_000_000, 50_000_000)));
    assert_eq!(surface.height(80), 60);
}

#[test]
fn draw_returns_the_ground_and_the_pad_marks() {
    let (mut surface, x_offset) = terrain_with_pad_below(3, 1_000_000);
    let frame = surface.draw(x_offset, 50_000_000, &flat(), &[1_000_000; 4]);
    let mut expected = Vec::new();
    for x in 0..160i32 {
        let h = surface.height(x as usize) as i32;
        expected.push(DrawCmd::Color { index: 2 });
        expected.push(DrawCmd::Line { x1: x, y1: 160, x2: x, y2: 160 - h });
        if surface.is_pad(x as usize) {
            expected.push(DrawCmd::Color { index: 4 });
            expected.push(DrawCmd::Rect { x, y: 160 - h, width: 1, height: 1 });
            expected.push(DrawCmd::Rect { x, y: 162 - h, width: 1, height: 1 });
            expected.push(DrawCmd::Color { index: 2 });
            expected.push(DrawCmd::Rect { x, y: 18 + x % 3, width: 1, height: 1 });
        }
    }
    assert_eq!(frame, expected);
    assert_eq!(frame[0], DrawCmd::Color { index: 2 });
    assert_eq!(frame[1], DrawCmd::Line { x1: 0, y1: 160, x2: 0, y2: 140 });
}

#[test]
fn a_point_above_the_ground_is_clear() {
    let (surface, _) = terrain_with_pad_below(3, 1_000_000);
    let ship = resting_ship();
    // The pad is 100 high: its top is at y = 60.
    assert_eq!(surface.check_collision(80_000_000, 59_999_999, &ship), NO_CONTACT);
    assert_eq!(surface.check_collision(80_000_000, 60_000_000, &ship), NO_CONTACT);
    // Off the pad the ground is 20 high: its top is at y = 140.
    assert!(!surface.is_pad(0));
    assert_eq!(surface.check_collision(0, 140_000_000, &ship), NO_CONTACT);
    assert_eq!(surface.check_collision(999_999, 140_000_000, &ship), NO_CONTACT);
}

#[test]
fn a_gentle_upright_touch_on_a_pad_lands() {
    let (surface, _) = terrain_with_pad_below(3, 1_000_000);
    let ship = resting_ship();
    assert_eq!(surface.check_collision(80_000_000, 60_000_001, &ship), LANDED);
    assert_eq!(surface.check_collision(80_999_999, 70_000_000, &ship), LANDED);
}

#[test]
fn a_landing_at_the_limits_is_still_safe() {
    let (surface, _) = terrain_with_pad_below(3, 1_000_000);
    let mut ship = resting_ship();
    ship.set_velocity(Point { x: 20_000, y: 97_979 });
    assert_eq!(ship.get_speed(), 99_999);
    assert_eq!(surface.check_collision(80_000_000, 61_000_000, &ship), LANDED);
    ship.set_velocity(Point { x: 0, y: 100_000 });
    assert_eq!(surface.check_collision(80_000_000, 61_000_000, &ship), LANDED);
    ship.set_velocity(Point { x: -100_000, y: 0 });
    assert_eq!(surface.check_collision(80_000_000, 61_000_000, &ship), LANDED);
}

#[test]
fn a_touch_on_a_pad_above_the_speed_limit_is_too_fast() {
    let (surface, _) = terrain_with_pad_below(3, 1_000_000);
    let mut ship = resting_ship();
    ship.set_velocity(Point { x: 0, y: 100_001 });
    assert_eq!(surface.check_collision(80_000_000, 61_000_000, &ship), TOO_FAST);
    ship.set_velocity(Point { x: 0, y: -100_001 });
    assert_eq!(surface.check_collision(80_000_000, 61_000_000, &ship), TOO_FAST);
}

#[test]
fn speed_is_judged_before_tilt_and_drift() {
    let (surface, _) = terrain_with_pad_below(3, 1_000_000);
    let mut ship = resting_ship();
    ship.set_angle(0);
    ship.set_velocity(Point { x: 290_000, y: 0 });
    assert_eq!(surface.check_collision(80_000_000, 61_000_000, &ship), TOO_FAST);
}

#[test]
fn a_tilted_touch_on_a_pad_is_too_steep() {
    let (surface, _) = terrain_with_pad_below(3, 1_000_000);
    let mut ship = resting_ship();
    // 1.1 degrees are 19 198 millionths of a radian.
    ship.set_angle(UP + 19_190);
    assert_eq!(surface.check_collision(80_000_000, 61_000_000, &ship), LANDED);
    ship.set_angle(UP - 19_190);
    assert_eq!(surface.check_collision(80_000_000, 61_000_000, &ship), LANDED);
    ship.set_angle(UP + 19_210);
    assert_eq!(surface.check_collision(80_000_000, 61_000_000, &ship), TOO_STEEP);
    ship.set_angle(UP - 19_210);
    assert_eq!(surface.check_collision(80_000_000, 61_000_000, &ship), TOO_STEEP);
    ship.set_angle(0);
    assert_eq!(surface.check_collision(80_000_000, 61_000_000, &ship), TOO_STEEP);
}

#[test]
fn tilt_is_judged_before_drift() {
    let (surface, _) = terrain_with_pad_below(3, 1_000_000);
    let mut ship = resting_ship();
    ship.set_angle(0);
    ship.set_velocity(Point { x: 50_000, y: 0 });
    assert_eq!(surface.check_collision(80_000_000, 61_000_000, &ship), TOO_STEEP);
}

#[test]
fn a_drift_to_the_right_shears_the_legs() {
    let (surface, _) = terrain_with_pad_below(3, 1_000_000);
    let mut ship = resting_ship();
    ship.set_velocity(Point { x: 20_001, y: 0 });
    assert_eq!(surface.check_collision(80_000_000, 61_000_000, &ship), SHEARED);
    ship.set_velocity(Point { x: 20_000, y: 0 });
    assert_eq!(surface.check_collision(80_000_000, 61_000_000, &ship), LANDED);
    ship.set_velocity(Point { x: -50_000, y: 0 });
    assert_eq!(surface.check_collision(80_000_000, 61_000_000, &ship), LANDED);
}

#[test]
fn a_touch_off_the_pads_is_a_crash_whatever_the_state() {
    let (surface, _) = terrain_with_pad_below(3, 1_000_000);
    assert!(!surface.is_pad(0));
    let mut ship = resting_ship();
    assert_eq!(surface.check_collision(0, 140_000_001, &ship), CRASHED);
    ship.set_velocity(Point { x: 290_000, y: 500_000 });
    assert_eq!(surface.check_collision(0, 150_000_000, &ship), CRASHED);
    ship.set_angle(1_000_000);
    assert_eq!(surface.check_collision(500_000, 159_000_000, &ship), CRASHED);
}

#[test]
fn ground_below_the_screen_is_not_touched_on_it() {
    let mut rng = PSNG::new(0);
    let mut surface = Surface::new(3, &mut rng);
    surface.draw(0, 0, &[-1_000_000; 160], &[-1_000_000; 4]);
    let ship = resting_ship();
    for x in 0..160usize {
        assert_eq!(surface.height(x), -110);
        assert_eq!(surface.check_collision(x as i64 * 1_000_000, 160_000_000, &ship), NO_CONTACT);
    }
}

#[test]
fn the_terrain_owns_the_noise_field_of_its_seed() {
    let mut rng = PSNG::new(0);
    let surface = Surface::new(12, &mut rng);
    let same = noilib_simple::NoiseGenerator::new(12);
    let other = noilib_simple::NoiseGenerator::new(13);
    let mut differs = false;
    for step in 0..200 {
        let x = step as f32 * 0.173;
        assert_eq!(surface.noise().perlin(x, 183.8), same.perlin(x, 183.8));
        differs |= surface.noise().perlin(x, 183.8) != other.perlin(x, 183.8);
    }
    assert!(differs);
}
