use lander::game::{
    flight_drift, just_pressed, raised, title_drift, turn_step, wrap, Game, Screen, BUTTON_1,
    BUTTON_2, BUTTON_LEFT, BUTTON_RIGHT, GRAV, STAR_COUNT,
};
use lander::gfx::DrawCmd;
use lander::noise::PSNG;
use lander::polygon::Point;
use lander::ship::{Craft, CrashReason, Ship};
use lander::surface::{covers, place_pad, Surface, PAD_COUNT};

const LOW: [i64; 160] = [-1_000_000; 160];
const HIGH: [i64; 160] = [10_000_000; 160];

fn stars_of(game: &Game) -> Vec<Point> {
    (0..STAR_COUNT).map(|i| game.star(i)).collect()
}

fn star_frame(game: &Game) -> Vec<DrawCmd> {
    let mut cmds = Vec::new();
    for i in 0..STAR_COUNT {
        let s = game.star(i);
        cmds.push(DrawCmd::Color { index: (i % 4 + 1) as u16 });
        cmds.push(DrawCmd::Rect {
            x: (s.x / 1_000_000) as i32,
            y: (s.y / 1_000_000) as i32,
            width: 1,
            height: 1,
        });
    }
    cmds
}

/// A session in flight, started in frame `seed`.
fn in_flight(seed: u32) -> Game {
    let mut game = Game::new();
    for _ in 1..seed {
        game.update(0);
    }
    game.update(BUTTON_2);
    assert_eq!(game.frame_count(), seed);
    assert_eq!(game.screen(), Screen::Flying);
    game
}

#[test]
fn buttons_that_went_down() {
    assert_eq!(just_pressed(0, 0), 0);
    assert_eq!(just_pressed(BUTTON_1, 0), BUTTON_1);
    assert_eq!(just_pressed(BUTTON_1, BUTTON_1), 0);
    assert_eq!(just_pressed(0, BUTTON_1), 0);
    assert_eq!(just_pressed(BUTTON_1 | BUTTON_LEFT, BUTTON_LEFT), BUTTON_1);
    assert_eq!(just_pressed(0xff, 0x0f), 0xf0);
}

#[test]
fn the_turn_step_shrinks_as_the_view_zooms_in() {
    assert_eq!(turn_step(1_000_000), 15_000);
    assert_eq!(turn_step(2_000_000), 7_500);
    assert_eq!(turn_step(300_000), 49_999);
    assert_eq!(turn_step(200_000), 75_000);
}

#[test]
fn stars_stay_on_the_screen() {
    assert_eq!(wrap(-1), 160_000_000);
    assert_eq!(wrap(0), 0);
    assert_eq!(wrap(160_000_000), 160_000_000);
    assert_eq!(wrap(160_000_001), 0);
    assert_eq!(
        title_drift(Point { x: 10_000_000, y: 20_000_000 }),
        Point { x: 10_500_000, y: 20_100_000 }
    );
    assert_eq!(
        title_drift(Point { x: 159_500_000, y: 159_900_000 }),
        Point { x: 160_000_000, y: 160_000_000 }
    );
    assert_eq!(
        title_drift(Point { x: 159_500_001, y: 159_900_001 }),
        Point { x: 0, y: 0 }
    );
}

#[test]
fn stars_fall_behind_by_their_layer() {
    let star = Point { x: 80_000_000, y: 80_000_000 };
    let v = Point { x: 290_000, y: -100_000 };
    assert_eq!(flight_drift(star, v, 1_000_000, 0), star);
    assert_eq!(flight_drift(star, v, 1_000_000, 4), star);
    assert_eq!(flight_drift(star, v, 1_000_000, 1), Point { x: 79_942_000, y: 80_020_000 });
    assert_eq!(flight_drift(star, v, 1_000_000, 3), Point { x: 79_826_000, y: 80_060_000 });
    assert_eq!(flight_drift(star, v, 500_000, 2), Point { x: 79_768_000, y: 80_080_000 });
    let edge = Point { x: 10_000, y: 159_990_000 };
    assert_eq!(flight_drift(edge, v, 1_000_000, 1), Point { x: 160_000_000, y: 0 });
}

#[test]
fn the_score_rises_by_the_whole_fuel_and_stops_at_the_top() {
    assert_eq!(raised(0, 250_000_000), 250);
    assert_eq!(raised(100, 123_999_999), 223);
    assert_eq!(raised(7, 0), 7);
    assert_eq!(raised(u32::MAX - 10, 250_000_000), u32::MAX);
    assert_eq!(raised(5, -3_000_000), 2);
    assert_eq!(raised(5, -10_000_000), 0);
}

#[test]
fn a_session_opens_on_the_title_screen() {
    let game = Game::new();
    assert_eq!(game.screen(), Screen::Title);
    assert_eq!(game.frame_count(), 0);
    assert_eq!(game.score(), 0);
    assert!(!game.awaits_terrain());
    assert_eq!(game.ship().state(), Ship::new().state());
    assert_eq!(game.surface().seed(), 666_666);
    assert_eq!(GRAV, 700);
}

#[test]
fn a_session_opens_with_the_stars_that_follow_the_pads_in_the_stream() {
    let game = Game::new();
    let mut rng = PSNG::new(666_666);
    for i in 0..PAD_COUNT {
        assert_eq!(game.surface().pad_location(i), place_pad(rng.next()));
    }
    for i in 0..STAR_COUNT {
        let x = rng.next() * 160;
        let y = rng.next() * 160;
        assert_eq!(game.star(i), Point { x, y });
        assert!(0 <= x && x < 160_000_000 && 0 <= y && y < 160_000_000);
    }
}

#[test]
fn two_sessions_are_alike() {
    let mut a = Game::new();
    let mut b = Game::new();
    for frame in 0..40u8 {
        let pad = if frame == 10 { BUTTON_1 } else if frame % 3 == 0 { BUTTON_RIGHT } else { 0 };
        let ta = a.update(pad);
        let tb = b.update(pad);
        assert_eq!(ta.screen, tb.screen);
        assert_eq!(ta.cmds, tb.cmds);
        assert_eq!(ta.tone, tb.tone);
        assert_eq!(a.render(&LOW, &[0; 4]), b.render(&LOW, &[0; 4]));
        assert_eq!(a.ship().state(), b.ship().state());
        assert_eq!(stars_of(&a), stars_of(&b));
    }
}

#[test]
fn the_title_screen_lets_the_stars_drift() {
    let mut game = Game::new();
    let before = stars_of(&game);
    let tick = game.update(0);
    assert_eq!(tick.screen, Screen::Title);
    assert_eq!(tick.tone, None);
    assert_eq!(game.frame_count(), 1);
    assert_eq!(game.screen(), Screen::Title);
    for i in 0..STAR_COUNT {
        assert_eq!(game.star(i), title_drift(before[i]));
    }
    assert_eq!(tick.cmds, star_frame(&game));
    assert_eq!(tick.cmds.len(), 120);
    assert!(!game.awaits_terrain());
    assert_eq!(game.render(&HIGH, &[0; 4]), vec![]);
    assert_eq!(game.screen(), Screen::Title);
}

#[test]
fn a_button_on_the_title_screen_starts_a_game() {
    for button in [BUTTON_1, BUTTON_2] {
        let mut game = Game::new();
        game.update(0);
        game.update(0);
        let tick = game.update(button);
        assert_eq!(tick.screen, Screen::Title);
        assert_eq!(game.screen(), Screen::Flying);
        assert_eq!(game.score(), 0);
        assert_eq!(game.frame_count(), 3);
        assert_eq!(game.surface().seed(), 3);
        assert_eq!(game.surface().scale(), 1_000_000);
        assert_eq!(game.ship().state(), Ship::new().state());

        let mut rng = PSNG::new(0);
        let reference = Surface::new(3, &mut rng);
        for i in 0..PAD_COUNT {
            assert_eq!(game.surface().pad_location(i), reference.pad_location(i));
        }
        for i in 0..STAR_COUNT {
            let star = Point { x: rng.next() * 160, y: rng.next() * 160 };
            assert_eq!(game.star(i), title_drift(star));
        }
    }
}

#[test]
fn a_turn_button_alone_does_not_start_a_game() {
    let mut game = Game::new();
    game.update(BUTTON_LEFT | BUTTON_RIGHT);
    assert_eq!(game.screen(), Screen::Title);
}

#[test]
fn a_button_held_down_counts_once() {
    let mut game = Game::new();
    assert_eq!(game.input(BUTTON_1), BUTTON_1);
    assert_eq!(game.input(BUTTON_1), 0);
    assert_eq!(game.input(BUTTON_1 | BUTTON_2), BUTTON_2);
    assert_eq!(game.input(0), 0);
    assert_eq!(game.input(BUTTON_1), BUTTON_1);
}

#[test]
fn the_first_button_is_the_engine_switch() {
    let mut game = Game::new();
    game.input(BUTTON_1);
    assert!(game.ship().state().engine_on);
    game.input(BUTTON_2);
    assert!(!game.ship().state().engine_on);
    game.input(BUTTON_1 | BUTTON_LEFT);
    assert!(game.ship().state().engine_on);
    game.input(0);
    assert!(!game.ship().state().engine_on);
}

#[test]
fn the_turn_buttons_turn_the_craft() {
    let mut game = Game::new();
    game.input(BUTTON_RIGHT);
    assert_eq!(game.ship().state().angle, 15_000);
    game.input(BUTTON_RIGHT);
    assert_eq!(game.ship().state().angle, 30_000);
    game.input(BUTTON_LEFT);
    assert_eq!(game.ship().state().angle, 15_000);
    game.input(BUTTON_LEFT | BUTTON_RIGHT);
    assert_eq!(game.ship().state().angle, 15_000);
    game.input(BUTTON_1);
    assert_eq!(game.ship().state().angle, 15_000);
    game.input(BUTTON_LEFT);
    game.input(BUTTON_LEFT);
    assert_eq!(game.ship().state().angle, -15_000);
}

#[test]
fn a_frame_of_flight_moves_the_craft_and_asks_for_the_terrain() {
    let mut game = in_flight(5);
    let stars = stars_of(&game);
    let tick = game.update(0);
    assert_eq!(tick.screen, Screen::Flying);
    assert_eq!(tick.tone, None);
    assert!(game.awaits_terrain());
    assert_eq!(game.frame_count(), 6);
    // The zoom is set from the depth before the craft moves.
    let craft = game.ship().state();
    assert_eq!(craft.scale, 300_000);
    assert_eq!(game.surface().scale(), 300_000);
    assert_eq!(craft.pos, Point { x: 200_290_000, y: 15_000_700 });
    assert_eq!(craft.velocity, Point { x: 290_000, y: 700 });
    for i in 0..STAR_COUNT {
        assert_eq!(
            game.star(i),
            flight_drift(stars[i], Point { x: 290_000, y: 0 }, 300_000, i)
        );
    }
    assert_eq!(tick.cmds, star_frame(&game));

    let frame = game.render(&LOW, &[0; 4]);
    assert!(!game.awaits_terrain());
    assert_eq!(game.screen(), Screen::Flying);
    assert_eq!(game.ship().state(), craft);
    // Each column has its ground; the hull has its three outlines.
    assert_eq!(frame[0], DrawCmd::Color { index: 2 });
    assert_eq!(frame[frame.len() - 13], DrawCmd::Color { index: 3 });
    let pad_columns = (0..160).filter(|&x| game.surface().is_pad(x)).count();
    assert_eq!(frame.len(), 2 * 160 + 5 * pad_columns + 13);
    assert_eq!(game.render(&HIGH, &[0; 4]), vec![]);
    assert_eq!(game.screen(), Screen::Flying);
}

#[test]
fn the_engine_sounds_while_it_burns() {
    let mut game = in_flight(5);
    let tick = game.update(BUTTON_1);
    assert_eq!(tick.tone, Some(329));
    assert_eq!(game.ship().get_fuel(), 249_800_000);
    assert_eq!(game.ship().get_velocity(), Point { x: 292_000, y: 700 });
    let frame = game.render(&LOW, &[0; 4]);
    assert_eq!(game.ship().particles().alive_count(), 1);
    assert_eq!(frame[frame.len() - 2], DrawCmd::Color { index: 4 });
    let tick = game.update(0);
    assert_eq!(tick.tone, None);
}

#[test]
fn a_crash_ends_the_game_and_a_button_brings_the_title_back() {
    let mut game = in_flight(9);
    assert_eq!(game.update(0).screen, Screen::Flying);
    game.render(&HIGH, &[HIGH[0]; 4]);
    let wreck = game.ship().state();
    assert!(wreck.destroyed);
    assert_ne!(wreck.crash_reason, CrashReason::Intact);
    assert_eq!(game.screen(), Screen::GameOver);

    let stars = stars_of(&game);
    let tick = game.update(0);
    assert_eq!(tick.screen, Screen::GameOver);
    assert_eq!(tick.tone, None);
    assert!(!game.awaits_terrain());
    assert_eq!(stars_of(&game), stars);
    assert_eq!(tick.cmds, star_frame(&game));
    let frozen = game.ship().state();
    assert_eq!(Craft { scale: frozen.scale, ..wreck }, frozen);
    assert_eq!(game.update(BUTTON_2).screen, Screen::GameOver);
    assert_eq!(game.screen(), Screen::GameOver);

    let tick = game.update(BUTTON_1);
    assert_eq!(tick.screen, Screen::GameOver);
    assert_eq!(game.screen(), Screen::Title);
    assert_ne!(stars_of(&game), stars);
    assert_eq!(tick.cmds, star_frame(&game));

    // The button is still down: it starts nothing until it went up.
    assert_eq!(game.update(BUTTON_1).screen, Screen::Title);
    assert_eq!(game.screen(), Screen::Title);
    game.update(0);
    game.update(BUTTON_1);
    assert_eq!(game.screen(), Screen::Flying);
    assert_eq!(game.surface().seed(), game.frame_count() as u64);
    assert_eq!(game.ship().state(), Ship::new().state());
    assert_eq!(game.score(), 0);
}

#[test]
fn a_craft_that_leaves_the_sky_ends_the_game() {
    let mut game = in_flight(2);
    // Turn to point up, then burn.
    let mut frames = 0;
    while game.ship().state().angle > -1_570_796 {
        game.update(BUTTON_LEFT);
        game.render(&LOW, &[0; 4]);
        frames += 1;
        assert!(frames < 200);
    }
    while game.screen() == Screen::Flying {
        game.update(BUTTON_1);
        game.render(&LOW, &[0; 4]);
        frames += 1;
        assert!(frames < 2000);
    }
    assert_eq!(game.screen(), Screen::GameOver);
    let craft = game.ship().state();
    assert!(craft.destroyed);
    assert_eq!(craft.crash_reason, CrashReason::Space);
    assert!(craft.pos.y < 10_000_000);
}

/// Flies one level by a fixed rule and returns the session when the craft
/// hangs upright and nearly at rest, with the frames that it took.
fn fly_to_a_hover(seed: u32) -> (Game, u32) {
    let mut game = in_flight(seed);
    let mut frames = 0u32;
    // Point against the flight and brake.
    while game.ship().state().angle > -3_141_592 + 30_000 {
        game.update(BUTTON_LEFT);
        game.render(&LOW, &[0; 4]);
        frames += 1;
    }
    while game.ship().state().velocity.x > 5_000 {
        game.update(BUTTON_1);
        game.render(&LOW, &[0; 4]);
        frames += 1;
    }
    // Point up, and settle the fall to a crawl.
    loop {
        let craft = game.ship().state();
        let step = turn_step(craft.scale);
        let off = craft.angle + 1_570_796;
        let upright = off.abs() <= step / 2 + 1;
        if upright && craft.velocity.y.abs() <= 40_000 {
            break;
        }
        let mut pad = 0;
        if !upright {
            pad |= if off < 0 { BUTTON_RIGHT } else { BUTTON_LEFT };
        } else if craft.velocity.y > 0 {
            pad |= BUTTON_1;
        }
        game.update(pad);
        game.render(&LOW, &[0; 4]);
        frames += 1;
        assert!(frames < 3000);
        assert_eq!(game.screen(), Screen::Flying);
    }
    (game, frames)
}

#[test]
fn a_landing_raises_the_score_and_a_button_starts_the_next_level() {
    // Where the craft comes to hang does not depend on the terrain: find it
    // first, then look for a level with a pad right there.
    let (trial, _) = fly_to_a_hover(1);
    let place = trial.ship().get_pos().x / 40;
    let mut seed = 2u32;
    loop {
        let mut rng = PSNG::new(0);
        let surface = Surface::new(seed, &mut rng);
        let near = (0..PAD_COUNT).any(|i| {
            let p = surface.pad_location(i);
            p + 130_000 < place && place < p + 350_000
        });
        if near {
            break;
        }
        seed += 1;
        assert!(seed < 5000);
    }
    let (mut game, _) = fly_to_a_hover(seed);
    let craft = game.ship().state();
    assert_eq!(craft.pos, trial.ship().get_pos());
    assert!(craft.scale >= 500_000);

    // Raise the pads under the craft.
    game.update(0);
    let place = game.ship().get_pos().x;
    assert!((76..=85).all(|x| {
        let xz = game.surface().column_coordinate(place, x);
        (0..PAD_COUNT).any(|i| covers(game.surface().pad_location(i), xz))
    }));
    game.render(&LOW, &[3_000_000; 4]);
    let craft = game.ship().state();
    assert!(craft.landed, "{:?}", craft);
    assert!(!craft.destroyed);
    assert_eq!(craft.crash_reason, CrashReason::Intact);
    assert_eq!(game.screen(), Screen::Landed);

    let fuel = game.ship().get_fuel();
    assert!(0 < fuel && fuel < 250_000_000);
    let worth = (fuel / 1_000_000) as u32;
    assert_eq!(game.landing_score(), worth);
    assert_eq!(game.score(), 0);

    let tick = game.update(0);
    assert_eq!(tick.screen, Screen::Landed);
    assert_eq!(tick.cmds, vec![]);
    assert_eq!(tick.tone, None);
    assert_eq!(game.ship().get_fuel(), fuel);
    assert_eq!(game.ship().get_pos(), craft.pos);
    assert_eq!(game.update(BUTTON_2).screen, Screen::Landed);
    assert_eq!(game.screen(), Screen::Landed);

    let tick = game.update(BUTTON_1);
    assert_eq!(tick.screen, Screen::Landed);
    assert_eq!(game.screen(), Screen::Flying);
    assert_eq!(game.score(), worth);
    assert_eq!(game.ship().state(), Ship::new().state());
    assert_eq!(game.surface().seed(), game.frame_count() as u64);
}
