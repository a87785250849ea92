//! One session of the game: which screen is up, the craft and the terrain of
//! the current level, the score and the star field.
//!
//! A frame is made in two steps, because the terrain needs noise samples
//! that the caller takes. `update` reads the buttons and advances the craft;
//! where it answers `Screen::Flying`, the caller samples the noise field at
//! the coordinates that the terrain names and hands the samples to `render`,
//! which draws the terrain and lets the hull meet it.

use vstd::prelude::*;
use crate::fixed::{divide, from_whole, minus, pixel, plus, times, whole, ONE};
use crate::gfx::DrawCmd;
use crate::noise::{advance, fraction, rng_output, rng_successor, PSNG};
use crate::particle::{advanced_all, sprites, Particle, CAPACITY};
use crate::polygon::Point;
use crate::ship::{clamp_scale, spec_zoom_at, zoom_at, Craft, Ship};
use crate::surface::{terrain_cmds, Surface, Terrain, PAD_COUNT, SCREEN_SZ};

verus! {

/// The pull of the moon, per frame.
pub const GRAV: i64 = 700;

/// The first action button.
pub const BUTTON_1: u8 = 1;

/// The second action button.
pub const BUTTON_2: u8 = 2;

/// The button that turns the craft against the clock.
pub const BUTTON_LEFT: u8 = 16;

/// The button that turns the craft with the clock.
pub const BUTTON_RIGHT: u8 = 32;

/// The number of stars.
pub const STAR_COUNT: usize = 60;

/// The seed of the terrain behind the title screen.
pub const TITLE_SEED: u32 = 666_666;

/// The width and the height of the screen as a fixed-point number.
pub const EDGE: i64 = 160_000_000;

/// What a frame shows.
#[derive(Clone, Copy, Debug, PartialEq, Eq, Structural)]
pub enum Screen {
    /// The title.
    Title,
    /// The end of a game, with the reason of the crash and the score.
    GameOver,
    /// A safe landing, with the fuel left and the score.
    Landed,
    /// The craft above the terrain.
    Flying,
}

/// The buttons of `gamepad` that were not down in `before`.
pub open spec fn spec_just_pressed(gamepad: u8, before: u8) -> u8 {
    gamepad & (gamepad ^ before)
}

/// How far one frame of a turn button turns a craft at zoom `scale`.
pub open spec fn spec_turn_step(scale: i64) -> i64 {
    times(30_000, divide(500_000, scale))
}

/// The heading `angle` after a frame with the buttons `gamepad` at zoom
/// `scale`.
pub open spec fn turned(angle: i64, gamepad: u8, scale: i64) -> i64 {
    let right = if gamepad & BUTTON_RIGHT != 0 {
        plus(angle, spec_turn_step(scale))
    } else {
        angle
    };
    if gamepad & BUTTON_LEFT != 0 {
        minus(right, spec_turn_step(scale))
    } else {
        right
    }
}

/// Star `i` of a field scattered by a stream in state `state`: two draws
/// each, across and down.
pub open spec fn scattered_star(state: u64, i: int) -> Point {
    Point {
        x: times(fraction(rng_output(advance(state, 2 * i))), EDGE),
        y: times(fraction(rng_output(advance(state, 2 * i + 1))), EDGE),
    }
}

/// The star field scattered by a stream in state `state`.
pub open spec fn scattered(state: u64) -> Seq<Point> {
    Seq::new(STAR_COUNT as nat, |i: int| scattered_star(state, i))
}

/// A star of the title screen one frame later: it drifts right and down and
/// comes back at the left or the top when it leaves the screen.
pub open spec fn spec_title_drift(star: Point) -> Point {
    let x = plus(star.x, 500_000);
    let y = plus(star.y, 100_000);
    Point { x: if x > EDGE {
        0
    } else {
        x
    }, y: if y > EDGE {
        0
    } else {
        y
    } }
}

/// The coordinate `v` of a star kept on the screen: below zero it comes
/// back at the far edge, beyond the far edge at zero.
pub open spec fn spec_wrap(v: i64) -> i64 {
    if v < 0 {
        EDGE
    } else if v > EDGE {
        0
    } else {
        v
    }
}

/// How far star `i` falls behind a craft with speed `v` along one axis in
/// one frame, at zoom `scale`: a fifth of the speed, divided by the zoom,
/// times the star's layer, which is `i` modulo four.
pub open spec fn spec_parallax(v: i64, scale: i64, i: int) -> i64 {
    times(times(times(v, 200_000), divide(ONE, scale)), from_whole((i % 4) as i32))
}

/// Star `i` one frame later behind a craft with velocity `velocity`.
pub open spec fn spec_flight_drift(star: Point, velocity: Point, scale: i64, i: int) -> Point {
    Point {
        x: spec_wrap(minus(star.x, spec_parallax(velocity.x, scale, i))),
        y: spec_wrap(minus(star.y, spec_parallax(velocity.y, scale, i))),
    }
}

/// The commands that draw the first `n` stars: each one pixel, in the colour
/// of its layer.
pub open spec fn star_cmds(stars: Seq<Point>, n: int) -> Seq<DrawCmd>
    decreases n,
{
    if n <= 0 {
        Seq::empty()
    } else {
        star_cmds(stars, n - 1) + seq![
            DrawCmd::Color { index: (((n - 1) % 4) + 1) as u16 },
            DrawCmd::Rect {
                x: pixel(stars[n - 1].x),
                y: pixel(stars[n - 1].y),
                width: 1,
                height: 1,
            },
        ]
    }
}

/// The buttons of `gamepad` that were not down in `before`.
#[verifier::when_used_as_spec(spec_just_pressed)]
pub fn just_pressed(gamepad: u8, before: u8) -> (r: u8)
    ensures
        r == spec_just_pressed(gamepad, before),
{
    gamepad & (gamepad ^ before)
}

/// How far one frame of a turn button turns a craft at zoom `scale`.
#[verifier::when_used_as_spec(spec_turn_step)]
pub fn turn_step(scale: i64) -> (r: i64)
    requires
        scale != 0,
    ensures
        r == spec_turn_step(scale),
{
    times(30_000, divide(500_000, scale))
}

/// A star of the title screen one frame later.
#[verifier::when_used_as_spec(spec_title_drift)]
pub fn title_drift(star: Point) -> (r: Point)
    ensures
        r == spec_title_drift(star),
{
    let x: i64 = plus(star.x, 500_000);
    let y: i64 = plus(star.y, 100_000);
    Point { x: if x > EDGE {
        0
    } else {
        x
    }, y: if y > EDGE {
        0
    } else {
        y
    } }
}

/// The coordinate `v` of a star kept on the screen.
#[verifier::when_used_as_spec(spec_wrap)]
pub fn wrap(v: i64) -> (r: i64)
    ensures
        r == spec_wrap(v),
{
    if v < 0 {
        EDGE
    } else if v > EDGE {
        0
    } else {
        v
    }
}

/// `score` raised by the whole part of `fuel`, kept within the range of a
/// score.
#[verifier::when_used_as_spec(spec_raised)]
pub fn raised(score: u32, fuel: i64) -> (r: u32)
    ensures
        r == spec_raised(score, fuel),
{
    let sum: i64 = score as i64 + whole(fuel);
    if sum > u32::MAX as i64 {
        u32::MAX
    } else if sum < 0 {
        0
    } else {
        sum as u32
    }
}

/// Star `i` one frame later behind a craft with velocity `velocity`.
pub fn flight_drift(star: Point, velocity: Point, scale: i64, i: usize) -> (r: Point)
    requires
        scale != 0,
    ensures
        r == spec_flight_drift(star, velocity, scale, i as int),
{
    let layer: i64 = from_whole((i % 4) as i32);
    let inverse: i64 = divide(ONE, scale);
    let dx: i64 = times(times(times(velocity.x, 200_000), inverse), layer);
    let dy: i64 = times(times(times(velocity.y, 200_000), inverse), layer);
    Point { x: wrap(minus(star.x, dx)), y: wrap(minus(star.y, dy)) }
}

/// What one call of `update` hands back.
#[derive(Debug)]
pub struct Tick {
    /// What the frame shows.
    pub screen: Screen,
    /// The commands that draw the stars of the frame.
    pub cmds: Vec<DrawCmd>,
    /// The pitch of the engine's noise, if the engine pushed.
    pub tone: Option<u32>,
}

/// What a session is made of.
pub struct Session {
    /// The frames since the session was opened, counted modulo `2^32`.
    pub frame_count: u32,
    /// The buttons that were down in the last frame.
    pub prev_gamepad: u8,
    pub is_game_over: bool,
    pub is_title_screen: bool,
    pub is_landed: bool,
    /// Whether the terrain of the current frame is still to be drawn.
    pub awaiting: bool,
    pub terrain: Terrain,
    pub craft: Craft,
    /// The exhaust particles of the craft.
    pub exhaust: Seq<Particle>,
    pub score: u32,
    pub stars: Seq<Point>,
    /// The state of the stream of fractions.
    pub stream: u64,
}

/// The state of the stream after the terrain for `seed` was generated.
pub open spec fn stream_after_terrain(seed: u32) -> u64 {
    advance(rng_successor(seed as u64), PAD_COUNT as int)
}

/// `score` raised by the whole part of `fuel`, kept within the range of a
/// score.
pub open spec fn spec_raised(score: u32, fuel: i64) -> u32 {
    if score + whole(fuel) > u32::MAX {
        u32::MAX
    } else if score + whole(fuel) < 0 {
        0
    } else {
        (score + whole(fuel)) as u32
    }
}

impl Session {
    /// A session as it is opened: the title screen over the terrain for
    /// `TITLE_SEED`, a craft at its start, the stars scattered by the stream
    /// that placed the pads.
    pub open spec fn opened() -> Session {
        Session {
            frame_count: 0,
            prev_gamepad: 0,
            is_game_over: false,
            is_title_screen: true,
            is_landed: false,
            awaiting: false,
            terrain: Terrain::generated(TITLE_SEED),
            craft: Craft::initial(),
            exhaust: crate::particle::fresh(),
            score: 0,
            stars: scattered(stream_after_terrain(TITLE_SEED)),
            stream: advance(stream_after_terrain(TITLE_SEED), 2 * STAR_COUNT),
        }
    }

    /// The session after a new level was started with `score`: a craft at
    /// its start, the terrain for the frame count as seed, the stars
    /// scattered anew. The title screen stays up if it was.
    pub open spec fn restarted(self, score: u32) -> Session {
        Session {
            prev_gamepad: 0,
            is_game_over: false,
            is_landed: false,
            awaiting: false,
            terrain: Terrain::generated(self.frame_count),
            craft: Craft::initial(),
            exhaust: crate::particle::fresh(),
            score,
            stars: scattered(stream_after_terrain(self.frame_count)),
            stream: advance(stream_after_terrain(self.frame_count), 2 * STAR_COUNT),
            ..self
        }
    }

    /// The session after the buttons `gamepad` were read: the first action
    /// button is the engine switch, and the turn buttons turn the craft.
    pub open spec fn steered(self, gamepad: u8) -> Session {
        let off = self.craft.throttled(false);
        let switched = if gamepad & BUTTON_1 != 0 {
            off.throttled(true)
        } else {
            off
        };
        Session {
            craft: Craft { angle: turned(switched.angle, gamepad, switched.scale), ..switched },
            prev_gamepad: gamepad,
            ..self
        }
    }

    /// The session with the stars scattered anew.
    pub open spec fn rescattered(self) -> Session {
        Session {
            stars: scattered(self.stream),
            stream: advance(self.stream, 2 * STAR_COUNT),
            ..self
        }
    }

    /// The session with the zoom factor that fits the depth of the craft.
    pub open spec fn zoomed(self) -> Session {
        let scale = spec_zoom_at(self.craft.pos.y);
        Session {
            craft: Craft { scale: clamp_scale(scale), ..self.craft },
            terrain: Terrain { scale: clamp_scale(scale), ..self.terrain },
            ..self
        }
    }

    /// The start of a frame: the frame is counted, the buttons are read, and
    /// the zoom is set.
    pub open spec fn begun(self, gamepad: u8) -> Session {
        (Session {
            frame_count: if self.frame_count == u32::MAX {
                0
            } else {
                (self.frame_count + 1) as u32
            },
            awaiting: false,
            ..self
        }).steered(gamepad).zoomed()
    }

    /// A frame of the title screen: an action button that went down starts
    /// a level with no score, and the stars drift.
    pub open spec fn title_frame(self, pressed: u8) -> Session {
        let next = if pressed & BUTTON_1 != 0 || pressed & BUTTON_2 != 0 {
            Session { is_title_screen: false, ..self.restarted(0) }
        } else {
            self
        };
        Session {
            stars: Seq::new(STAR_COUNT as nat, |i: int| spec_title_drift(next.stars[i])),
            ..next
        }
    }

    /// A frame of the game-over screen: the first action button going down
    /// brings the title screen back and scatters the stars anew.
    pub open spec fn over_frame(self, pressed: u8) -> Session {
        if pressed & BUTTON_1 != 0 {
            Session { is_title_screen: true, ..self.rescattered() }
        } else {
            self
        }
    }

    /// A frame of the landing screen: the first action button going down
    /// starts the next level, with the fuel left added to the score.
    pub open spec fn landed_frame(self, pressed: u8) -> Session {
        if pressed & BUTTON_1 != 0 {
            self.restarted(spec_raised(self.score, self.craft.fuel))
        } else {
            self
        }
    }

    /// The first half of a frame of flight: the stars fall behind, and the
    /// craft moves by one frame under `GRAV`. The terrain is then due.
    pub open spec fn flight_frame(self) -> Session {
        Session {
            stars: Seq::new(
                STAR_COUNT as nat,
                |i: int|
                    spec_flight_drift(self.stars[i], self.craft.velocity, self.terrain.scale, i),
            ),
            craft: self.craft.ticked(GRAV),
            awaiting: true,
            ..self
        }
    }

    /// What the frame after `begun` shows.
    pub open spec fn screen(self) -> Screen {
        if self.is_title_screen {
            Screen::Title
        } else if self.is_game_over {
            Screen::GameOver
        } else if self.is_landed {
            Screen::Landed
        } else {
            Screen::Flying
        }
    }

    /// The session after `update` with the buttons `gamepad`.
    pub open spec fn stepped(self, gamepad: u8) -> Session {
        let pressed = spec_just_pressed(gamepad, self.prev_gamepad);
        let begun = self.begun(gamepad);
        match begun.screen() {
            Screen::Title => begun.title_frame(pressed),
            Screen::GameOver => begun.over_frame(pressed),
            Screen::Landed => begun.landed_frame(pressed),
            Screen::Flying => begun.flight_frame(),
        }
    }

    /// The session after `render` with the samples `noise` and `pad_noise`.
    /// Where no terrain is due nothing changes. Else the terrain is drawn
    /// for the place of the craft, the hull meets it, the exhaust is fed and
    /// moves, and a craft that was destroyed or has landed ends the flight.
    pub open spec fn rendered(self, noise: Seq<i64>, pad_noise: Seq<i64>) -> Session {
        if !self.awaiting {
            self
        } else {
            let terrain = self.terrain.drawn(self.craft.pos.x, self.craft.pos.y, noise, pad_noise);
            let craft = self.craft.struck(self.craft.hull_contact(terrain));
            Session {
                terrain,
                craft,
                exhaust: advanced_all(craft.fed(self.exhaust, self.stream)),
                stream: if craft.feeds(self.exhaust) {
                    advance(self.stream, 3)
                } else {
                    self.stream
                },
                is_game_over: self.is_game_over || craft.destroyed,
                is_landed: self.is_landed || craft.landed,
                awaiting: false,
                ..self
            }
        }
    }

    /// The commands of `render`: the terrain from the left, then the hull,
    /// then the exhaust.
    pub open spec fn render_cmds(self, noise: Seq<i64>, pad_noise: Seq<i64>) -> Seq<DrawCmd> {
        if !self.awaiting {
            Seq::empty()
        } else {
            let after = self.rendered(noise, pad_noise);
            terrain_cmds(after.terrain.heights, after.terrain.pads, SCREEN_SZ as int)
                + self.craft.hull_cmds(after.terrain) + sprites(after.exhaust, CAPACITY as int, 4)
        }
    }
}

/// A flight that has ended rests: while the game-over or the landing screen
/// is up, a frame leaves the place, the velocity and the fuel of the craft
/// alone, unless it starts a new level with a craft at its start.
pub proof fn lemma_ended_flight_rests(s: Session, gamepad: u8)
    requires
        s.craft.wf(),
        s.is_game_over || s.is_landed,
    ensures
        s.stepped(gamepad).craft == Craft::initial() || {
            &&& s.stepped(gamepad).craft.pos == s.craft.pos
            &&& s.stepped(gamepad).craft.velocity == s.craft.velocity
            &&& s.stepped(gamepad).craft.fuel == s.craft.fuel
            &&& s.stepped(gamepad).craft.destroyed == s.craft.destroyed
            &&& s.stepped(gamepad).craft.landed == s.craft.landed
        },
        !s.stepped(gamepad).awaiting,
{
}

/// While a flight lasts, `update` moves the craft by one frame under `GRAV`
/// after the buttons were read, and asks for the terrain.
pub proof fn lemma_flight_advances(s: Session, gamepad: u8)
    requires
        !s.is_title_screen,
        !s.is_game_over,
        !s.is_landed,
    ensures
        s.stepped(gamepad).craft == s.begun(gamepad).craft.ticked(GRAV),
        s.stepped(gamepad).awaiting,
        s.stepped(gamepad).terrain == s.begun(gamepad).terrain,
{
}

/// One session of the game.
pub struct Game {
    frame_count: u32,
    prev_gamepad: u8,
    is_game_over: bool,
    is_title_screen: bool,
    is_landed: bool,
    awaiting: bool,
    surface: Surface,
    ship: Ship,
    score: u32,
    stars: [Point; 60],
    rng: PSNG,
}

impl View for Game {
    type V = Session;

    /// What the session is made of.
    closed spec fn view(&self) -> Session {
        Session {
            frame_count: self.frame_count,
            prev_gamepad: self.prev_gamepad,
            is_game_over: self.is_game_over,
            is_title_screen: self.is_title_screen,
            is_landed: self.is_landed,
            awaiting: self.awaiting,
            terrain: self.surface@,
            craft: self.ship@,
            exhaust: self.ship.exhaust(),
            score: self.score,
            stars: self.stars@,
            stream: self.rng.state(),
        }
    }
}

impl Game {
    /// Opens a session.
    pub fn new() -> (r: Self)
        ensures
            r@ == Session::opened(),
    {
        let mut rng = PSNG::new(0);
        let surface = Surface::new(TITLE_SEED, &mut rng);
        let mut game = Game {
            frame_count: 0,
            prev_gamepad: 0,
            is_game_over: false,
            is_title_screen: true,
            is_landed: false,
            awaiting: false,
            surface,
            ship: Ship::new(),
            score: 0,
            stars: [Point { x: 0, y: 0 }; 60],
            rng,
        };
        game.init_stars();
        game
    }

    /// Starts a level with `score`: a new craft, a new terrain seeded with
    /// the frame count, new stars.
    pub fn new_game(&mut self, score: u32)
        ensures
            final(self)@ == old(self)@.restarted(score),
    {
        self.is_game_over = false;
        self.is_landed = false;
        self.awaiting = false;
        self.prev_gamepad = 0;
        self.ship = Ship::new();
        self.surface = Surface::new(self.frame_count, &mut self.rng);
        self.score = score;
        self.init_stars();
    }

    /// Reads the buttons `gamepad`, and returns those that went down in this
    /// frame. The first action button is the engine switch, and each turn
    /// button turns the craft by one step.
    pub fn input(&mut self, gamepad: u8) -> (pressed: u8)
        ensures
            pressed == spec_just_pressed(gamepad, old(self)@.prev_gamepad),
            final(self)@ == old(self)@.steered(gamepad),
    {
        let pressed: u8 = just_pressed(gamepad, self.prev_gamepad);

        self.ship.set_engines(false);
        if gamepad & BUTTON_1 != 0 {
            self.ship.set_engines(true);
        }
        let craft = self.ship.state();
        let mut angle: i64 = craft.angle;
        if gamepad & BUTTON_RIGHT != 0 {
            angle = plus(angle, turn_step(craft.scale));
        }
        if gamepad & BUTTON_LEFT != 0 {
            angle = minus(angle, turn_step(craft.scale));
        }
        self.ship.set_angle(angle);

        self.prev_gamepad = gamepad;
        pressed
    }

    /// The first half of a frame. The frame is counted, the buttons are
    /// read, and the zoom is set to fit the depth of the craft. What follows
    /// depends on the screen that is up; in flight the craft moves by one
    /// frame, and `render` is due.
    pub fn update(&mut self, gamepad: u8) -> (tick: Tick)
        ensures
            final(self)@ == old(self)@.stepped(gamepad),
            tick.screen == old(self)@.begun(gamepad).screen(),
            tick.cmds@ == if tick.screen == Screen::Landed {
                Seq::<DrawCmd>::empty()
            } else {
                star_cmds(final(self)@.stars, STAR_COUNT as int)
            },
            tick.tone == if tick.screen == Screen::Flying {
                old(self)@.begun(gamepad).craft.engine_tone()
            } else {
                None
            },
    {
        self.frame_count = self.frame_count.wrapping_add(1);
        self.awaiting = false;

        let pressed: u8 = self.input(gamepad);

        let scale: i64 = zoom_at(self.ship.get_pos().y);
        self.ship.set_scale(scale);
        self.surface.set_scale(scale);
        assert(self@ == old(self)@.begun(gamepad));

        if self.is_title_screen {
            if pressed & BUTTON_1 != 0 || pressed & BUTTON_2 != 0 {
                self.new_game(0);
                self.is_title_screen = false;
            }
            self.update_stars_title();
            return Tick { screen: Screen::Title, cmds: self.draw_stars(), tone: None };
        }
        if self.is_game_over {
            if pressed & BUTTON_1 != 0 {
                self.is_title_screen = true;
                self.init_stars();
            }
            return Tick { screen: Screen::GameOver, cmds: self.draw_stars(), tone: None };
        }
        if self.is_landed {
            if pressed & BUTTON_1 != 0 {
                let score: u32 = raised(self.score, self.ship.get_fuel());
                self.new_game(score);
            }
            return Tick { screen: Screen::Landed, cmds: Vec::new(), tone: None };
        }
        self.drift_stars();
        let tone = self.ship.update(GRAV);
        self.awaiting = true;
        Tick { screen: Screen::Flying, cmds: self.draw_stars(), tone }
    }

    /// The second half of a frame of flight, with `noise[x]` the sample of
    /// the noise field at the coordinate of column `x` for the place of the
    /// craft, and `pad_noise[i]` the sample at the coordinate of pad `i`.
    /// The terrain is drawn, the hull meets it, and the exhaust is fed and
    /// moves; a craft that was destroyed or has landed ends the flight.
    /// Where no terrain is due, nothing happens.
    pub fn render(&mut self, noise: &[i64; 160], pad_noise: &[i64; 4]) -> (cmds: Vec<DrawCmd>)
        ensures
            final(self)@ == old(self)@.rendered(noise@, pad_noise@),
            cmds@ == old(self)@.render_cmds(noise@, pad_noise@),
    {
        if !self.awaiting {
            return Vec::new();
        }
        let pos = self.ship.get_pos();
        let mut cmds = self.surface.draw(pos.x, pos.y, noise, pad_noise);
        let mut craft_cmds = self.ship.draw(&self.surface, &mut self.rng);
        cmds.append(&mut craft_cmds);

        let craft = self.ship.state();
        if craft.destroyed {
            self.is_game_over = true;
        }
        if craft.landed {
            self.is_landed = true;
        }
        self.awaiting = false;
        assert(cmds@ =~= old(self)@.render_cmds(noise@, pad_noise@));
        cmds
    }

    /// Lets the stars fall behind the craft by one frame.
    fn drift_stars(&mut self)
        ensures
            final(self)@ == (Session {
                stars: Seq::new(
                    STAR_COUNT as nat,
                    |i: int|
                        spec_flight_drift(
                            old(self)@.stars[i],
                            old(self)@.craft.velocity,
                            old(self)@.terrain.scale,
                            i,
                        ),
                ),
                ..old(self)@
            }),
    {
        let velocity = self.ship.get_velocity();
        let scale: i64 = self.surface.scale();
        let mut i: usize = 0;
        while i < 60
            invariant
                i <= 60,
                scale != 0,
                scale == old(self).surface@.scale,
                velocity == old(self).ship@.velocity,
                forall|j: int|
                    0 <= j < i ==> #[trigger] self.stars@[j] == spec_flight_drift(
                        old(self).stars@[j],
                        velocity,
                        scale,
                        j,
                    ),
                forall|j: int| i <= j < 60 ==> #[trigger] self.stars@[j] == old(self).stars@[j],
                self.frame_count == old(self).frame_count,
                self.prev_gamepad == old(self).prev_gamepad,
                self.is_game_over == old(self).is_game_over,
                self.is_title_screen == old(self).is_title_screen,
                self.is_landed == old(self).is_landed,
                self.awaiting == old(self).awaiting,
                self.surface@ == old(self).surface@,
                self.ship@ == old(self).ship@,
                self.ship.exhaust() == old(self).ship.exhaust(),
                self.score == old(self).score,
                self.rng.state() == old(self).rng.state(),
            decreases 60 - i,
        {
            self.stars[i] = flight_drift(self.stars[i], velocity, scale, i);
            i += 1;
        }
        assert(self.stars@ =~= Seq::new(
            STAR_COUNT as nat,
            |i: int|
                spec_flight_drift(
                    old(self)@.stars[i],
                    old(self)@.craft.velocity,
                    old(self)@.terrain.scale,
                    i,
                ),
        ));
    }

    /// What the next frame shows, as things stand.
    pub fn screen(&self) -> (r: Screen)
        ensures
            r == self@.screen(),
    {
        if self.is_title_screen {
            Screen::Title
        } else if self.is_game_over {
            Screen::GameOver
        } else if self.is_landed {
            Screen::Landed
        } else {
            Screen::Flying
        }
    }

    /// Whether `render` is due.
    pub fn awaits_terrain(&self) -> (r: bool)
        ensures
            r == self@.awaiting,
    {
        self.awaiting
    }

    /// The craft.
    pub fn ship(&self) -> (r: &Ship)
        ensures
            r@ == self@.craft,
            r.exhaust() == self@.exhaust,
    {
        &self.ship
    }

    /// The terrain.
    pub fn surface(&self) -> (r: &Surface)
        ensures
            r@ == self@.terrain,
    {
        &self.surface
    }

    /// The score.
    pub fn score(&self) -> (r: u32)
        ensures
            r == self@.score,
    {
        self.score
    }

    /// The score that a landing with the fuel now left is worth.
    pub fn landing_score(&self) -> (r: u32)
        ensures
            r == spec_raised(self@.score, self@.craft.fuel),
    {
        raised(self.score, self.ship.get_fuel())
    }

    /// The frames since the session was opened.
    pub fn frame_count(&self) -> (r: u32)
        ensures
            r == self@.frame_count,
    {
        self.frame_count
    }

    /// The star in slot `i`.
    pub fn star(&self, i: usize) -> (r: Point)
        requires
            i < STAR_COUNT,
        ensures
            r == self@.stars[i as int],
    {
        self.stars[i]
    }

    /// Scatters the stars over the screen, with two fractions of the stream
    /// for each.
    fn init_stars(&mut self)
        ensures
            final(self)@ == old(self)@.rescattered(),
    {
        let ghost start = self.rng.state();
        let mut i: usize = 0;
        while i < 60
            invariant
                i <= 60,
                self.rng.state() == advance(start, 2 * i),
                forall|j: int| 0 <= j < i ==> #[trigger] self.stars@[j] == scattered_star(start, j),
                self.frame_count == old(self).frame_count,
                self.prev_gamepad == old(self).prev_gamepad,
                self.is_game_over == old(self).is_game_over,
                self.is_title_screen == old(self).is_title_screen,
                self.is_landed == old(self).is_landed,
                self.awaiting == old(self).awaiting,
                self.surface@ == old(self).surface@,
                self.ship@ == old(self).ship@,
                self.ship.exhaust() == old(self).ship.exhaust(),
                self.score == old(self).score,
            decreases 60 - i,
        {
            let x: i64 = times(self.rng.next(), EDGE);
            let y: i64 = times(self.rng.next(), EDGE);
            self.stars[i] = Point { x, y };
            proof {
                assert(advance(start, 2 * i + 1) == rng_successor(advance(start, 2 * i)));
                assert(advance(start, 2 * i + 2) == rng_successor(advance(start, 2 * i + 1)));
            }
            i += 1;
        }
        assert(self.stars@ =~= scattered(start));
    }

    /// The commands that draw the stars.
    fn draw_stars(&self) -> (cmds: Vec<DrawCmd>)
        ensures
            cmds@ == star_cmds(self@.stars, STAR_COUNT as int),
    {
        let mut cmds: Vec<DrawCmd> = Vec::new();
        let mut i: usize = 0;
        while i < 60
            invariant
                i <= 60,
                cmds@ == star_cmds(self.stars@, i as int),
            decreases 60 - i,
        {
            let star = self.stars[i];
            cmds.push(DrawCmd::Color { index: ((i % 4) + 1) as u16 });
            cmds.push(DrawCmd::Rect { x: pixel(star.x), y: pixel(star.y), width: 1, height: 1 });
            assert(cmds@ =~= star_cmds(self.stars@, i as int) + seq![
                DrawCmd::Color { index: ((i % 4) + 1) as u16 },
                DrawCmd::Rect { x: pixel(star.x), y: pixel(star.y), width: 1, height: 1 },
            ]);
            i += 1;
        }
        cmds
    }

    /// Lets the stars of the title screen drift by one frame.
    fn update_stars_title(&mut self)
        ensures
            final(self)@ == (Session {
                stars: Seq::new(STAR_COUNT as nat, |i: int| spec_title_drift(old(self)@.stars[i])),
                ..old(self)@
            }),
    {
        let mut i: usize = 0;
        while i < 60
            invariant
                i <= 60,
                forall|j: int|
                    0 <= j < i ==> #[trigger] self.stars@[j] == spec_title_drift(
                        old(self).stars@[j],
                    ),
                forall|j: int| i <= j < 60 ==> #[trigger] self.stars@[j] == old(self).stars@[j],
                self.frame_count == old(self).frame_count,
                self.prev_gamepad == old(self).prev_gamepad,
                self.is_game_over == old(self).is_game_over,
                self.is_title_screen == old(self).is_title_screen,
                self.is_landed == old(self).is_landed,
                self.awaiting == old(self).awaiting,
                self.surface@ == old(self).surface@,
                self.ship@ == old(self).ship@,
                self.ship.exhaust() == old(self).ship.exhaust(),
                self.score == old(self).score,
                self.rng.state() == old(self).rng.state(),
            decreases 60 - i,
        {
            self.stars[i] = title_drift(self.stars[i]);
            i += 1;
        }
        assert(self.stars@ =~= Seq::new(
            STAR_COUNT as nat,
            |i: int| spec_title_drift(old(self)@.stars[i]),
        ));
    }
}

} // verus!
