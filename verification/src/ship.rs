//! The craft: its kinematic state, the integrator that advances it by one
//! frame, and the hull that is tested against the terrain.

use vstd::prelude::*;
use crate::fixed::{divide, from_whole, hypot, magnitude, minus, plus, times, whole, ONE};
use crate::gfx::DrawCmd;
use crate::noise::{advance, fraction, rng_output, rng_successor, PSNG};
use crate::particle::{
    advanced_all, fresh, saturated, spawned, sprites, Particle, ParticlePool, CAPACITY,
};
use crate::polygon::{
    first_contact, outline, rotated_all, scaled_all, translated_all, Point, Polygon,
};
use crate::surface::{
    in_view, Surface, Terrain, CRASHED, LANDED, NO_CONTACT, SHEARED, TOO_FAST, TOO_STEEP,
};
use crate::trig::{cos, sin};

verus! {

/// Where the craft stands on the screen, across.
pub const SHIP_X: i64 = 80_000_000;

/// Where the craft stands on the screen, down.
pub const SHIP_Y: i64 = 50_000_000;

/// The fuel that one frame of thrust burns.
pub const FUEL_COST: i64 = 200_000;

/// The altitude above which the craft is lost: `y` grows downward, so a
/// craft with `y` below this has left the sky.
pub const CEILING: i64 = 10_000_000;

/// The fuel of a full tank.
pub const FULL_TANK: i64 = 250_000_000;

/// The smallest zoom factor: the zoom at the ceiling.
pub const MIN_SCALE: i64 = 200_000;

/// The largest zoom factor.
pub const MAX_SCALE: i64 = 2_000_000;

/// The depth at which the zoom factor is one.
pub const ZOOM_DEPTH: i64 = 50_000_000;

/// Degrees in one radian.
pub const DEGREES_PER_RADIAN: i64 = 57_295_780;

/// The speed above which a landing is too fast.
pub const SPEED_LIMIT: i64 = 100_000;

/// The tilt from upright, in degrees, above which a landing is too steep.
pub const TILT_LIMIT: i64 = 1_100_000;

/// The speed to the right above which a landing shears the legs.
pub const SHEAR_LIMIT: i64 = 20_000;

/// Why a craft was destroyed.
#[derive(Clone, Copy, Debug, PartialEq, Eq, Structural)]
pub enum CrashReason {
    /// Not destroyed.
    Intact,
    /// Left the sky.
    Space,
    /// Touched the ground beside a pad.
    Surface,
    /// Reached a pad too fast.
    TooFast,
    /// Reached a pad too far from upright.
    TooSteep,
    /// Reached a pad while drifting to the right.
    Sheared,
}

impl CrashReason {
    /// The words that tell the player of this reason.
    pub open spec fn text(self) -> Seq<char> {
        match self {
            CrashReason::Intact => ""@,
            CrashReason::Space => "You zoomed off\ninto space!"@,
            CrashReason::Surface => "Crashed into the\nlunar surface"@,
            CrashReason::TooFast => "Landed too fast!"@,
            CrashReason::TooSteep => "Landed at too\nsteep an angle"@,
            CrashReason::Sheared => "Sheared landing\nlegs"@,
        }
    }

    /// The words that tell the player of this reason; none for an intact
    /// craft.
    pub fn message(&self) -> (r: &'static str)
        ensures
            r@ == self.text(),
    {
        match self {
            CrashReason::Intact => "",
            CrashReason::Space => "You zoomed off\ninto space!",
            CrashReason::Surface => "Crashed into the\nlunar surface",
            CrashReason::TooFast => "Landed too fast!",
            CrashReason::TooSteep => "Landed at too\nsteep an angle",
            CrashReason::Sheared => "Sheared landing\nlegs",
        }
    }
}

/// The kinematic state of a craft.
#[derive(Clone, Copy, Debug, PartialEq, Eq, Structural)]
pub struct Craft {
    /// Position in the world; `y` grows downward.
    pub pos: Point,
    /// Velocity, per frame.
    pub velocity: Point,
    /// Heading in radians; a quarter turn below zero points up.
    pub angle: i64,
    /// Zoom factor of the view.
    pub scale: i64,
    /// Acceleration of the engine, per frame.
    pub thrust: i64,
    /// Fuel left.
    pub fuel: i64,
    pub engine_on: bool,
    pub destroyed: bool,
    pub landed: bool,
    pub crash_reason: CrashReason,
}

/// The zoom factor at depth `y`: a fiftieth of the depth, kept between
/// `MIN_SCALE` and `MAX_SCALE`.
pub open spec fn spec_zoom_at(y: i64) -> i64 {
    clamp_scale(divide(y, ZOOM_DEPTH))
}

/// `scale` kept between `MIN_SCALE` and `MAX_SCALE`.
pub open spec fn clamp_scale(scale: i64) -> i64 {
    if scale < MIN_SCALE {
        MIN_SCALE
    } else if scale > MAX_SCALE {
        MAX_SCALE
    } else {
        scale
    }
}

impl Craft {
    /// The state of a craft at the start of a game.
    pub open spec fn initial() -> Craft {
        Craft {
            pos: Point { x: 200_000_000, y: 15_000_000 },
            velocity: Point { x: 290_000, y: 0 },
            angle: 0,
            scale: ONE,
            thrust: 2_000,
            fuel: FULL_TANK,
            engine_on: false,
            destroyed: false,
            landed: false,
            crash_reason: CrashReason::Intact,
        }
    }

    /// What holds of the state of every craft.
    pub open spec fn wf(self) -> bool {
        &&& 0 <= self.fuel <= FULL_TANK
        &&& self.engine_on ==> self.fuel > 0
        &&& MIN_SCALE <= self.scale <= MAX_SCALE
        &&& !(self.destroyed && self.landed)
    }

    /// Neither destroyed nor landed.
    pub open spec fn flying(self) -> bool {
        !self.destroyed && !self.landed
    }

    /// Whether the engine pushes in the coming frame.
    pub open spec fn burning(self) -> bool {
        self.flying() && self.engine_on && self.fuel > 0
    }

    /// The length of the velocity.
    pub open spec fn speed(self) -> i64 {
        hypot(self.velocity.x, self.velocity.y)
    }

    /// The tilt from upright, in degrees.
    pub open spec fn tilt(self) -> i64 {
        plus(times(self.angle, DEGREES_PER_RADIAN), from_whole(90))
    }

    /// The fuel after one more frame.
    pub open spec fn fuel_after(self) -> i64 {
        if !self.burning() {
            self.fuel
        } else if self.fuel > FUEL_COST {
            (self.fuel - FUEL_COST) as i64
        } else {
            0
        }
    }

    /// The velocity after one more frame under `gravity`: the push of the
    /// engine along the heading, if it burns, then gravity downward.
    pub open spec fn velocity_after(self, gravity: i64) -> Point {
        let pushed = if self.burning() {
            Point {
                x: plus(self.velocity.x, times(self.thrust, cos(self.angle))),
                y: plus(self.velocity.y, times(self.thrust, sin(self.angle))),
            }
        } else {
            self.velocity
        };
        Point { x: pushed.x, y: plus(pushed.y, gravity) }
    }

    /// The state one frame later under `gravity`. A craft that is destroyed
    /// or has landed stays as it is. Else the velocity changes first and the
    /// position moves by the new velocity; a craft that ends the frame above
    /// the ceiling is destroyed.
    pub open spec fn ticked(self, gravity: i64) -> Craft {
        if !self.flying() {
            self
        } else {
            let velocity = self.velocity_after(gravity);
            let pos = Point { x: plus(self.pos.x, velocity.x), y: plus(self.pos.y, velocity.y) };
            let fuel = self.fuel_after();
            let lost = pos.y < CEILING;
            Craft {
                pos,
                velocity,
                fuel,
                engine_on: self.engine_on && fuel > 0,
                destroyed: lost,
                crash_reason: if lost {
                    CrashReason::Space
                } else {
                    self.crash_reason
                },
                ..self
            }
        }
    }

    /// The pitch of the engine's noise in the coming frame, if it burns: the
    /// whole part of the fuel that the frame leaves, and eighty.
    pub open spec fn engine_tone(self) -> Option<u32> {
        if self.burning() {
            Some((whole(self.fuel_after()) + 80) as u32)
        } else {
            None
        }
    }

    /// The state after the engine switch was set to `state`: with an empty
    /// tank the engine stays off.
    pub open spec fn throttled(self, state: bool) -> Craft {
        if self.fuel <= 0 {
            Craft { engine_on: false, fuel: 0, ..self }
        } else {
            Craft { engine_on: state, ..self }
        }
    }

    /// The state after the hull met the terrain with outcome `contact`: no
    /// change without contact, landed after a safe landing, else destroyed
    /// for the reason that the outcome names.
    pub open spec fn struck(self, contact: u8) -> Craft {
        if contact == NO_CONTACT {
            self
        } else if contact == LANDED {
            Craft { landed: true, ..self }
        } else {
            Craft {
                destroyed: true,
                crash_reason: if contact == CRASHED {
                    CrashReason::Surface
                } else if contact == TOO_FAST {
                    CrashReason::TooFast
                } else if contact == TOO_STEEP {
                    CrashReason::TooSteep
                } else if contact == SHEARED {
                    CrashReason::Sheared
                } else {
                    self.crash_reason
                },
                ..self
            }
        }
    }

    /// The outcome for part `part` of the hull on the terrain `terrain`.
    pub open spec fn part_contact(self, terrain: Terrain, part: int) -> u8 {
        first_contact(on_screen(hull_part(part), self.scale, self.angle), terrain, self, 0)
    }

    /// The outcome for the hull: that of the first part that is not clear of
    /// the terrain, in the order body, first leg, second leg. A craft that is
    /// destroyed or has landed meets nothing.
    pub open spec fn hull_contact(self, terrain: Terrain) -> u8 {
        if !self.flying() {
            NO_CONTACT
        } else if self.part_contact(terrain, 0) != NO_CONTACT {
            self.part_contact(terrain, 0)
        } else if self.part_contact(terrain, 1) != NO_CONTACT {
            self.part_contact(terrain, 1)
        } else {
            self.part_contact(terrain, 2)
        }
    }

    /// The commands that draw part `part` in colour `color`: its outline
    /// while it is clear of the terrain, else nothing.
    pub open spec fn part_cmds(self, terrain: Terrain, part: int, color: u16) -> Seq<DrawCmd> {
        if self.part_contact(terrain, part) == NO_CONTACT {
            outline(on_screen(hull_part(part), self.scale, self.angle), color)
        } else {
            Seq::empty()
        }
    }

    /// The commands that draw the hull: the parts in their order, up to the
    /// first that is not clear of the terrain.
    pub open spec fn hull_cmds(self, terrain: Terrain) -> Seq<DrawCmd> {
        if !self.flying() || self.part_contact(terrain, 0) != NO_CONTACT {
            Seq::empty()
        } else if self.part_contact(terrain, 1) != NO_CONTACT {
            self.part_cmds(terrain, 0, 3)
        } else {
            self.part_cmds(terrain, 0, 3) + self.part_cmds(terrain, 1, 2) + self.part_cmds(
                terrain,
                2,
                2,
            )
        }
    }

    /// Whether the craft offers a particle that the exhaust `exhaust` takes:
    /// it flies, its engine is on, and a slot is free.
    pub open spec fn feeds(self, exhaust: Seq<Particle>) -> bool {
        self.flying() && self.engine_on && !saturated(exhaust)
    }

    /// The exhaust `exhaust` after the craft had its turn to feed it, with
    /// the stream in state `state`.
    pub open spec fn fed(self, exhaust: Seq<Particle>, state: u64) -> Seq<Particle> {
        if self.feeds(exhaust) {
            spawned(exhaust, self.puff(state))
        } else {
            exhaust
        }
    }

    /// The particle that leaves the nozzle when the stream is in state
    /// `state`: it starts at the nozzle and flies against the heading, with
    /// the next three fractions of the stream spreading its direction over
    /// six tenths of a radian, adding to its speed of 1.2, and adding up to
    /// five frames, at zoom one, to its lifetime of six.
    pub open spec fn puff(self, state: u64) -> Particle {
        let nozzle = on_screen(flame(), self.scale, self.angle)[0];
        let a = fraction(rng_output(state));
        let b = fraction(rng_output(advance(state, 1)));
        let c = fraction(rng_output(advance(state, 2)));
        Particle {
            pos: nozzle,
            angle: plus(minus(self.angle, 3_140_000), times(minus(a, 500_000), 600_000)),
            speed: plus(1_200_000, b),
            lifetime: times(plus(6_000_000, times(c, 5_000_000)), self.scale),
        }
    }
}

/// The vertices of `template` on the screen of a craft with zoom `scale` and
/// heading `angle`: scaled, then turned, then moved to the craft's place.
pub open spec fn on_screen(template: Seq<Point>, scale: i64, angle: i64) -> Seq<Point> {
    translated_all(rotated_all(scaled_all(template, scale), angle), SHIP_X, SHIP_Y)
}

/// The point `(x, y)`.
pub open spec fn at(x: int, y: int) -> Point {
    Point { x: x as i64, y: y as i64 }
}

/// The body of the hull.
pub open spec fn body() -> Seq<Point> {
    seq![
        at(-3_000_000, 4_000_000),
        at(4_000_000, 2_500_000),
        at(4_000_000, -2_500_000),
        at(-3_000_000, -4_000_000),
    ]
}

/// The first leg of the hull.
pub open spec fn leg1() -> Seq<Point> {
    seq![
        at(-3_000_000, 4_000_000),
        at(-6_000_000, 5_000_000),
        at(-3_000_000, 3_000_000),
    ]
}

/// The second leg of the hull.
pub open spec fn leg2() -> Seq<Point> {
    seq![
        at(-3_000_000, -4_000_000),
        at(-6_000_000, -5_000_000),
        at(-3_000_000, -3_000_000),
    ]
}

/// The nozzle, where the exhaust leaves the hull.
pub open spec fn flame() -> Seq<Point> {
    seq![at(-3_000_000, 0)]
}

/// The parts of the hull in the order in which they meet the terrain: body,
/// first leg, second leg, and last the nozzle, which meets nothing.
pub open spec fn hull_part(part: int) -> Seq<Point> {
    if part == 0 {
        body()
    } else if part == 1 {
        leg1()
    } else if part == 2 {
        leg2()
    } else {
        flame()
    }
}

/// A craft with its hull and its exhaust.
pub struct Ship {
    craft: Craft,
    parts: Vec<Polygon>,
    particles: ParticlePool,
}

impl View for Ship {
    type V = Craft;

    /// The kinematic state.
    closed spec fn view(&self) -> Craft {
        self.craft
    }
}

impl Ship {
    #[verifier::type_invariant]
    spec fn inv(self) -> bool {
        &&& self.craft.wf()
        &&& self.parts@.len() == 4
        &&& forall|part: int| 0 <= part < 4 ==> (#[trigger] self.parts@[part])@ == hull_part(part)
    }

    /// The exhaust particles, slot by slot.
    pub closed spec fn exhaust(&self) -> Seq<Particle> {
        self.particles@
    }

    /// A craft at the start of a game, with no exhaust.
    pub fn new() -> (r: Self)
        ensures
            r@ == Craft::initial(),
            r@.wf(),
            r.exhaust() == fresh(),
    {
        let mut body = Polygon::new();
        body.add_point(-3_000_000, 4_000_000);
        body.add_point(4_000_000, 2_500_000);
        body.add_point(4_000_000, -2_500_000);
        body.add_point(-3_000_000, -4_000_000);

        let mut flame = Polygon::new();
        flame.add_point(-3_000_000, 0);

        let mut leg1 = Polygon::new();
        leg1.add_point(-3_000_000, 4_000_000);
        leg1.add_point(-6_000_000, 5_000_000);
        leg1.add_point(-3_000_000, 3_000_000);

        let mut leg2 = Polygon::new();
        leg2.add_point(-3_000_000, -4_000_000);
        leg2.add_point(-6_000_000, -5_000_000);
        leg2.add_point(-3_000_000, -3_000_000);

        proof {
            assert(body@ =~= self::body());
            assert(leg1@ =~= self::leg1());
            assert(leg2@ =~= self::leg2());
            assert(flame@ =~= self::flame());
        }

        let mut parts_vec: Vec<Polygon> = Vec::new();
        parts_vec.push(body);
        parts_vec.push(leg1);
        parts_vec.push(leg2);
        parts_vec.push(flame);

        let particles = ParticlePool::new();
        Self {
            craft: Craft {
                pos: Point::new(200_000_000, 15_000_000),
                velocity: Point::new(290_000, 0),
                angle: 0,
                scale: ONE,
                thrust: 2_000,
                fuel: FULL_TANK,
                engine_on: false,
                destroyed: false,
                landed: false,
                crash_reason: CrashReason::Intact,
            },
            parts: parts_vec,
            particles,
        }
    }

    /// Advances the craft by one frame under `gravity`, and returns the
    /// pitch of the engine's noise if the engine pushed in this frame.
    pub fn update(&mut self, gravity: i64) -> (tone: Option<u32>)
        ensures
            final(self)@ == old(self)@.ticked(gravity),
            tone == old(self)@.engine_tone(),
            final(self).exhaust() == old(self).exhaust(),
    {
        proof {
            use_type_invariant(&*self);
        }
        let c = self.craft;
        if c.destroyed || c.landed {
            return None;
        }
        let burning: bool = c.engine_on && c.fuel > 0;
        let mut velocity = c.velocity;
        let mut fuel: i64 = c.fuel;
        let mut tone: Option<u32> = None;
        if burning {
            velocity.x = plus(velocity.x, times(c.thrust, cos(c.angle)));
            velocity.y = plus(velocity.y, times(c.thrust, sin(c.angle)));
            fuel = if fuel > FUEL_COST {
                fuel - FUEL_COST
            } else {
                0
            };
            tone = Some((whole(fuel) + 80) as u32);
        }
        velocity.y = plus(velocity.y, gravity);
        let pos = Point { x: plus(c.pos.x, velocity.x), y: plus(c.pos.y, velocity.y) };
        let lost: bool = pos.y < CEILING;
        self.craft = Craft {
            pos,
            velocity,
            fuel,
            engine_on: c.engine_on && fuel > 0,
            destroyed: lost,
            crash_reason: if lost {
                CrashReason::Space
            } else {
                c.crash_reason
            },
            ..c
        };
        tone
    }

    /// Draws the hull and the exhaust, and lets the hull meet the terrain.
    ///
    /// While the craft flies, its parts are tested against `surface` in the
    /// order body, first leg, second leg; the first that is not clear decides
    /// the outcome, and neither it nor the parts after it are drawn. A craft
    /// that still flies with its engine on then offers one particle to the
    /// exhaust, which takes three fractions from `rng` if a slot is free.
    /// Last the exhaust moves by one frame and is drawn.
    pub fn draw(&mut self, surface: &Surface, rng: &mut PSNG) -> (frame: Vec<DrawCmd>)
        ensures
            final(self)@ == old(self)@.struck(old(self)@.hull_contact(surface@)),
            final(self).exhaust() == advanced_all(
                final(self)@.fed(old(self).exhaust(), old(rng).state()),
            ),
            final(rng).state() == if final(self)@.feeds(old(self).exhaust()) {
                advance(old(rng).state(), 3)
            } else {
                old(rng).state()
            },
            final(rng).z() == old(rng).z(),
            frame@ == old(self)@.hull_cmds(surface@) + sprites(
                final(self).exhaust(),
                CAPACITY as int,
                4,
            ),
    {
        let mut frame = self.meet(surface);
        self.exhale(rng);
        proof {
            use_type_invariant(&*self);
        }
        let mut pool = self.particles;
        pool.update_all();
        self.particles = pool;
        let mut sparks = pool.draw(4);
        frame.append(&mut sparks);
        frame
    }

    /// Lets the hull meet the terrain, and returns the commands that draw
    /// the parts that are clear of it.
    fn meet(&mut self, surface: &Surface) -> (frame: Vec<DrawCmd>)
        ensures
            final(self)@ == old(self)@.struck(old(self)@.hull_contact(surface@)),
            frame@ == old(self)@.hull_cmds(surface@),
            final(self).exhaust() == old(self).exhaust(),
    {
        let mut frame: Vec<DrawCmd> = Vec::new();
        if !self.craft.destroyed && !self.craft.landed {
            let mut body = self.draw_part(0, surface, 3);
            frame.append(&mut body);
            if !self.craft.destroyed && !self.craft.landed {
                let mut leg = self.draw_part(1, surface, 2);
                frame.append(&mut leg);
                if !self.craft.destroyed && !self.craft.landed {
                    let mut other = self.draw_part(2, surface, 2);
                    frame.append(&mut other);
                }
            }
        }
        assert(frame@ =~= old(self)@.hull_cmds(surface@));
        frame
    }

    /// Offers one particle to the exhaust if the craft flies with its engine
    /// on.
    fn exhale(&mut self, rng: &mut PSNG)
        ensures
            final(self)@ == old(self)@,
            final(self).exhaust() == old(self)@.fed(old(self).exhaust(), old(rng).state()),
            final(rng).state() == if old(self)@.feeds(old(self).exhaust()) {
                advance(old(rng).state(), 3)
            } else {
                old(rng).state()
            },
            final(rng).z() == old(rng).z(),
    {
        proof {
            use_type_invariant(&*self);
        }
        if !self.craft.destroyed && !self.craft.landed && self.craft.engine_on {
            let mut nozzle = self.parts[3].clone();
            nozzle.scale(self.craft.scale);
            nozzle.rotate(self.craft.angle);
            nozzle.translate(SHIP_X, SHIP_Y);
            let mut pool = self.particles;
            let free = pool.first_dead();
            if free.is_some() {
                let at = nozzle.points[0];
                let a: i64 = rng.next();
                let b: i64 = rng.next();
                let c: i64 = rng.next();
                let angle: i64 = plus(
                    minus(self.craft.angle, 3_140_000),
                    times(minus(a, 500_000), 600_000),
                );
                let speed: i64 = plus(1_200_000, b);
                let lifetime: i64 = times(plus(6_000_000, times(c, 5_000_000)), self.craft.scale);
                pool.spawn(at.x, at.y, angle, speed, lifetime);
                self.particles = pool;
                proof {
                    let s0 = old(rng).state();
                    assert(advance(s0, 0) == s0);
                    assert(advance(s0, 1) == rng_successor(advance(s0, 0)));
                    assert(advance(s0, 2) == rng_successor(advance(s0, 1)));
                    assert(advance(s0, 3) == rng_successor(advance(s0, 2)));
                }
            }
        }
    }

    /// Tests part `part` of the hull against `surface`, and returns the
    /// commands that draw it in colour `color` if it is clear.
    fn draw_part(&mut self, part: usize, surface: &Surface, color: u16) -> (frame: Vec<DrawCmd>)
        requires
            part < 3,
            old(self)@.flying(),
        ensures
            final(self)@ == old(self)@.struck(old(self)@.part_contact(surface@, part as int)),
            frame@ == old(self)@.part_cmds(surface@, part as int, color),
            final(self).exhaust() == old(self).exhaust(),
    {
        proof {
            use_type_invariant(&*self);
        }
        let mut p = self.parts[part].clone();

        p.scale(self.craft.scale);
        p.rotate(self.craft.angle);

        // The hull stands at a fixed place of the screen.
        p.translate(SHIP_X, SHIP_Y);

        proof {
            lemma_hull_in_view(part as int, self.craft.scale, self.craft.angle);
        }
        let c: u8 = p.check_collision(surface, self);
        if c >= CRASHED {
            let reason = if c == CRASHED {
                CrashReason::Surface
            } else if c == TOO_FAST {
                CrashReason::TooFast
            } else if c == TOO_STEEP {
                CrashReason::TooSteep
            } else if c == SHEARED {
                CrashReason::Sheared
            } else {
                self.craft.crash_reason
            };
            self.craft = Craft { destroyed: true, crash_reason: reason, ..self.craft };
            return Vec::new();
        }
        if c == LANDED {
            self.craft = Craft { landed: true, ..self.craft };
            return Vec::new();
        }
        p.draw(color)
    }

    /// Sets the engine switch. With an empty tank the engine stays off.
    pub fn set_engines(&mut self, state: bool)
        ensures
            final(self)@ == old(self)@.throttled(state),
            final(self).exhaust() == old(self).exhaust(),
    {
        proof {
            use_type_invariant(&*self);
        }
        let c = self.craft;
        if c.fuel <= 0 {
            self.craft = Craft { engine_on: false, fuel: 0, ..c };
        } else {
            self.craft = Craft { engine_on: state, ..c };
        }
    }

    /// The exhaust particles.
    pub fn particles(&self) -> (r: ParticlePool)
        ensures
            r@ == self.exhaust(),
    {
        self.particles
    }

    /// The kinematic state.
    pub fn state(&self) -> (r: Craft)
        ensures
            r == self@,
            r.wf(),
    {
        proof {
            use_type_invariant(self);
        }
        self.craft
    }

    /// The fuel left.
    pub fn get_fuel(&self) -> (r: i64)
        ensures
            r == self@.fuel,
            0 <= r <= FULL_TANK,
    {
        proof {
            use_type_invariant(self);
        }
        self.craft.fuel
    }

    /// The position in the world.
    pub fn get_pos(&self) -> (r: Point)
        ensures
            r == self@.pos,
    {
        self.craft.pos
    }

    /// The velocity, per frame.
    pub fn get_velocity(&self) -> (r: Point)
        ensures
            r == self@.velocity,
    {
        self.craft.velocity
    }

    /// The length of the velocity.
    pub fn get_speed(&self) -> (r: i64)
        ensures
            r == self@.speed(),
    {
        hypot(self.craft.velocity.x, self.craft.velocity.y)
    }

    /// Sets the heading.
    pub fn set_angle(&mut self, angle: i64)
        ensures
            final(self)@ == (Craft { angle, ..old(self)@ }),
            final(self).exhaust() == old(self).exhaust(),
    {
        proof {
            use_type_invariant(&*self);
        }
        self.craft = Craft { angle, ..self.craft };
    }

    /// Sets the zoom factor, kept between `MIN_SCALE` and `MAX_SCALE`.
    pub fn set_scale(&mut self, scale: i64)
        ensures
            final(self)@ == (Craft { scale: clamp_scale(scale), ..old(self)@ }),
            final(self).exhaust() == old(self).exhaust(),
    {
        proof {
            use_type_invariant(&*self);
        }
        self.craft = Craft { scale: zoom_clamp(scale), ..self.craft };
    }

    /// Puts the craft at `pos`.
    pub fn set_pos(&mut self, pos: Point)
        ensures
            final(self)@ == (Craft { pos, ..old(self)@ }),
            final(self).exhaust() == old(self).exhaust(),
    {
        proof {
            use_type_invariant(&*self);
        }
        self.craft = Craft { pos, ..self.craft };
    }

    /// Gives the craft the velocity `velocity`.
    pub fn set_velocity(&mut self, velocity: Point)
        ensures
            final(self)@ == (Craft { velocity, ..old(self)@ }),
            final(self).exhaust() == old(self).exhaust(),
    {
        proof {
            use_type_invariant(&*self);
        }
        self.craft = Craft { velocity, ..self.craft };
    }
}

/// `scale` kept between `MIN_SCALE` and `MAX_SCALE`.
#[verifier::when_used_as_spec(clamp_scale)]
pub fn zoom_clamp(scale: i64) -> (r: i64)
    ensures
        r == clamp_scale(scale),
        MIN_SCALE <= r <= MAX_SCALE,
{
    if scale < MIN_SCALE {
        MIN_SCALE
    } else if scale > MAX_SCALE {
        MAX_SCALE
    } else {
        scale
    }
}

/// The zoom factor at depth `y`.
#[verifier::when_used_as_spec(spec_zoom_at)]
pub fn zoom_at(y: i64) -> (r: i64)
    ensures
        r == spec_zoom_at(y),
        MIN_SCALE <= r <= MAX_SCALE,
{
    zoom_clamp(divide(y, ZOOM_DEPTH))
}

impl Craft {
    /// The state `n` frames later under `gravity`.
    pub open spec fn fall(self, gravity: i64, n: nat) -> Craft
        decreases n,
    {
        if n == 0 {
            self
        } else {
            self.fall(gravity, (n - 1) as nat).ticked(gravity)
        }
    }

    /// The depth that a craft falling freely from this state has after `k`
    /// frames under `gravity`, by the closed formula.
    pub open spec fn depth_after(self, gravity: i64, k: nat) -> int {
        self.pos.y + k * self.velocity.y + gravity * (k * (k + 1) / 2)
    }

    /// Whether free fall for `k` frames stays within the range of the
    /// numbers: the downward speed and the depth by the closed formula both
    /// fit.
    pub open spec fn fall_in_range(self, gravity: i64, k: nat) -> bool {
        &&& i64::MIN <= self.velocity.y + k * gravity <= i64::MAX
        &&& i64::MIN <= self.depth_after(gravity, k) <= i64::MAX
    }

    /// The tank is empty and the engine off.
    pub open spec fn dry(self) -> bool {
        self.fuel == 0 && !self.engine_on
    }
}

/// Free fall follows the closed formula. A craft that flies with its engine
/// off has, after `n` frames, the downward speed `vy + n * gravity` and the
/// depth `y + n * vy + gravity * n * (n + 1) / 2`, as long as both stay
/// within the range of the numbers and the craft stays under the ceiling
/// until the frame before the last.
pub proof fn lemma_free_fall(c: Craft, gravity: i64, n: nat)
    requires
        c.flying(),
        !c.engine_on,
        forall|k: nat| 1 <= k <= n ==> #[trigger] c.fall_in_range(gravity, k),
        forall|k: nat| 1 <= k < n ==> #[trigger] c.depth_after(gravity, k) >= CEILING,
    ensures
        c.fall(gravity, n).velocity.y == c.velocity.y + n * gravity,
        c.fall(gravity, n).pos.y == c.pos.y + n * c.velocity.y + gravity * (n * (n + 1) / 2),
        !c.fall(gravity, n).engine_on,
        !c.fall(gravity, n).landed,
        c.fall(gravity, n).destroyed <==> n > 0 && c.depth_after(gravity, n) < CEILING,
    decreases n,
{
    if n == 0 {
        assert(gravity * (0int * (0int + 1) / 2) == 0);
    } else {
        let m = (n - 1) as nat;
        lemma_free_fall(c, gravity, m);
        let before = c.fall(gravity, m);
        assert(before.flying()) by {
            if m > 0 {
                assert(c.depth_after(gravity, m) >= CEILING);
            }
        }
        assert(m * (m + 1) / 2 + n == n * (n + 1) / 2) by (nonlinear_arith)
            requires
                n == m + 1,
                m >= 0,
        ;
        assert(c.depth_after(gravity, n) == c.depth_after(gravity, m) + (c.velocity.y + n
            * gravity)) by (nonlinear_arith)
            requires
                n == m + 1,
                n * (n + 1) / 2 == m * (m + 1) / 2 + n,
                c.depth_after(gravity, n) == c.pos.y + n * c.velocity.y + gravity * (n * (n + 1)
                    / 2),
                c.depth_after(gravity, m) == c.pos.y + m * c.velocity.y + gravity * (m * (m + 1)
                    / 2),
        ;
        assert(c.fall_in_range(gravity, n));
        assert(c.velocity.y + n * gravity == (c.velocity.y + m * gravity) + gravity)
            by (nonlinear_arith)
            requires
                n == m + 1,
        ;
    }
}

/// Destroyed and landed are final: a craft in either state is left as it is
/// by every frame, however many, and meets no terrain.
pub proof fn lemma_terminal_states_are_final(c: Craft, gravity: i64, n: nat, terrain: Terrain)
    requires
        !c.flying(),
    ensures
        c.ticked(gravity) == c,
        c.fall(gravity, n) == c,
        c.hull_contact(terrain) == NO_CONTACT,
        c.struck(c.hull_contact(terrain)) == c,
        c.hull_cmds(terrain) == Seq::<DrawCmd>::empty(),
    decreases n,
{
    if n > 0 {
        lemma_terminal_states_are_final(c, gravity, (n - 1) as nat, terrain);
    }
}

/// One thing that happens to a craft.
pub enum Event {
    /// The engine switch is set.
    Switch(bool),
    /// A frame passes under the given gravity.
    Frame(i64),
    /// The hull meets the terrain with the given outcome.
    Contact(u8),
}

impl Craft {
    /// The state after `event`.
    pub open spec fn after(self, event: Event) -> Craft {
        match event {
            Event::Switch(state) => self.throttled(state),
            Event::Frame(gravity) => self.ticked(gravity),
            Event::Contact(contact) => self.struck(contact),
        }
    }

    /// The state after `events`, in their order.
    pub open spec fn after_all(self, events: Seq<Event>) -> Craft
        decreases events.len(),
    {
        if events.len() == 0 {
            self
        } else {
            self.after_all(events.drop_last()).after(events.last())
        }
    }
}

/// Whatever happens to a craft, and in whatever order, it never has more
/// fuel than before, and never less than none.
pub proof fn lemma_fuel_only_falls(c: Craft, events: Seq<Event>)
    requires
        c.wf(),
    ensures
        0 <= c.after_all(events).fuel <= c.fuel,
        c.after_all(events).engine_on ==> c.after_all(events).fuel > 0,
    decreases events.len(),
{
    if events.len() > 0 {
        lemma_fuel_only_falls(c, events.drop_last());
    }
}

/// Once the tank is empty the engine stays off, whatever happens to the
/// craft, and however often the engine switch is set.
pub proof fn lemma_empty_tank_stays_empty(c: Craft, events: Seq<Event>)
    requires
        c.wf(),
        c.fuel == 0,
    ensures
        c.after_all(events).dry(),
    decreases events.len(),
{
    if events.len() > 0 {
        lemma_empty_tank_stays_empty(c, events.drop_last());
    }
}

/// Fuel never comes back: neither a frame nor the engine switch leaves more
/// fuel than there was.
pub proof fn lemma_fuel_never_rises(c: Craft, gravity: i64, state: bool)
    requires
        c.wf(),
    ensures
        c.ticked(gravity).fuel <= c.fuel,
        c.throttled(state).fuel <= c.fuel,
        c.burning() ==> c.ticked(gravity).fuel < c.fuel,
{
}

/// An empty tank keeps the engine off. In every state of a craft with no
/// fuel the engine is off; the engine switch leaves it off whatever it is
/// set to, and so do a frame and a meeting with the terrain.
pub proof fn lemma_empty_tank_keeps_engine_off(c: Craft, gravity: i64, state: bool, contact: u8)
    requires
        c.wf(),
        c.fuel == 0,
    ensures
        c.dry(),
        c.throttled(state).dry(),
        c.ticked(gravity).dry(),
        c.struck(contact).dry(),
{
}

/// The frame that empties the tank switches the engine off.
pub proof fn lemma_last_drop_stops_engine(c: Craft, gravity: i64)
    requires
        c.wf(),
        c.ticked(gravity).fuel == 0,
    ensures
        !c.ticked(gravity).engine_on,
{
}

/// Every step keeps the state of a craft well formed.
pub proof fn lemma_steps_keep_wf(c: Craft, gravity: i64, state: bool, contact: u8)
    requires
        c.wf(),
    ensures
        c.ticked(gravity).wf(),
        c.throttled(state).wf(),
        c.flying() ==> c.struck(contact).wf(),
{
}

/// A landing within every limit is safe: a flying craft with a vertex on a
/// pad, no faster than `SPEED_LIMIT`, tilted by no more than `TILT_LIMIT`
/// and drifting to the right by no more than `SHEAR_LIMIT`, has landed and
/// is not destroyed.
pub proof fn lemma_gentle_landing_is_safe(c: Craft, terrain: Terrain, p: Point)
    requires
        c.flying(),
        terrain.wf(),
        in_view(p),
        terrain.touches(p),
        terrain.pads[whole(p.x) as int],
        c.speed() <= SPEED_LIMIT,
        -TILT_LIMIT <= c.tilt() <= TILT_LIMIT,
        c.velocity.x <= SHEAR_LIMIT,
    ensures
        terrain.contact(p, c) == LANDED,
        c.struck(terrain.contact(p, c)).landed,
        !c.struck(terrain.contact(p, c)).destroyed,
{
}

/// A craft that reaches a pad at rest and upright lands safely.
pub proof fn lemma_landing_at_rest_is_safe(c: Craft, terrain: Terrain, p: Point)
    requires
        c.flying(),
        terrain.wf(),
        in_view(p),
        terrain.touches(p),
        terrain.pads[whole(p.x) as int],
        c.velocity == (Point { x: 0, y: 0 }),
        c.angle == -crate::trig::HALF_PI,
    ensures
        c.speed() == 0,
        c.tilt() == 18,
        terrain.contact(p, c) == LANDED,
        c.struck(terrain.contact(p, c)).landed,
        !c.struck(terrain.contact(p, c)).destroyed,
{
    assert(crate::fixed::is_floor_sqrt(0, 0));
    crate::fixed::lemma_floor_sqrt_unique(0, crate::fixed::floor_sqrt(0), 0);
    assert(c.angle * DEGREES_PER_RADIAN == -89_999_982_040_880) by (nonlinear_arith)
        requires
            c.angle == -1_570_796,
            DEGREES_PER_RADIAN == 57_295_780,
    ;
}

/// Speed is judged first: a craft that reaches a pad faster than
/// `SPEED_LIMIT` is destroyed for that reason, whatever its tilt and drift.
pub proof fn lemma_fast_landing_destroys(c: Craft, terrain: Terrain, p: Point)
    requires
        terrain.wf(),
        in_view(p),
        terrain.touches(p),
        terrain.pads[whole(p.x) as int],
        c.speed() > SPEED_LIMIT,
    ensures
        terrain.contact(p, c) == TOO_FAST,
        c.struck(terrain.contact(p, c)).destroyed,
        c.struck(terrain.contact(p, c)).crash_reason == CrashReason::TooFast,
        c.struck(terrain.contact(p, c)).landed == c.landed,
{
}

/// Off the pads every touch destroys, whatever the speed and the heading.
pub proof fn lemma_touch_off_pad_destroys(c: Craft, terrain: Terrain, p: Point)
    requires
        terrain.wf(),
        in_view(p),
        terrain.touches(p),
        !terrain.pads[whole(p.x) as int],
    ensures
        terrain.contact(p, c) == CRASHED,
        c.struck(terrain.contact(p, c)).destroyed,
        c.struck(terrain.contact(p, c)).crash_reason == CrashReason::Surface,
        c.struck(terrain.contact(p, c)).landed == c.landed,
{
}

/// No vertex of the hull lies further than six units from the craft's centre
/// along either axis.
pub proof fn lemma_hull_bounded(part: int, i: int)
    requires
        0 <= part < 4,
        0 <= i < hull_part(part).len(),
    ensures
        -6_000_000 <= hull_part(part)[i].x <= 6_000_000,
        -6_000_000 <= hull_part(part)[i].y <= 6_000_000,
{
    if part == 0 {
        assert(body()[0] == at(-3_000_000, 4_000_000));
        assert(body()[1] == at(4_000_000, 2_500_000));
        assert(body()[2] == at(4_000_000, -2_500_000));
        assert(body()[3] == at(-3_000_000, -4_000_000));
    } else if part == 1 {
        assert(leg1()[0] == at(-3_000_000, 4_000_000));
        assert(leg1()[1] == at(-6_000_000, 5_000_000));
        assert(leg1()[2] == at(-3_000_000, 3_000_000));
    } else if part == 2 {
        assert(leg2()[0] == at(-3_000_000, -4_000_000));
        assert(leg2()[1] == at(-6_000_000, -5_000_000));
        assert(leg2()[2] == at(-3_000_000, -3_000_000));
    } else {
        assert(flame()[0] == at(-3_000_000, 0));
    }
}

/// Whatever the heading, and at every zoom within the limits, each vertex of
/// the hull stands above one of the screen's columns.
pub proof fn lemma_hull_in_view(part: int, scale: i64, angle: i64)
    requires
        0 <= part < 4,
        MIN_SCALE <= scale <= MAX_SCALE,
    ensures
        on_screen(hull_part(part), scale, angle).len() == hull_part(part).len(),
        forall|i: int|
            0 <= i < hull_part(part).len() ==> in_view(
                #[trigger] on_screen(hull_part(part), scale, angle)[i],
            ),
{
    let template = hull_part(part);
    let world = on_screen(template, scale, angle);
    assert forall|i: int| 0 <= i < template.len() implies in_view(#[trigger] world[i]) by {
        lemma_hull_bounded(part, i);
        let t = template[i];
        let s = t.scaled(scale);
        assert(magnitude(t.x * scale) <= 12_000_000 * ONE) by (nonlinear_arith)
            requires
                -6_000_000 <= t.x <= 6_000_000,
                0 <= scale <= 2_000_000,
                ONE == 1_000_000,
        ;
        assert(magnitude(t.y * scale) <= 12_000_000 * ONE) by (nonlinear_arith)
            requires
                -6_000_000 <= t.y <= 6_000_000,
                0 <= scale <= 2_000_000,
                ONE == 1_000_000,
        ;
        crate::fixed::lemma_times_magnitude(t.x, scale, 12_000_000);
        crate::fixed::lemma_times_magnitude(t.y, scale, 12_000_000);
        crate::trig::lemma_unit_bounds(angle);
        crate::fixed::lemma_times_shrinks(s.x, cos(angle));
        crate::fixed::lemma_times_shrinks(s.x, sin(angle));
        crate::fixed::lemma_times_shrinks(s.y, cos(angle));
        crate::fixed::lemma_times_shrinks(s.y, sin(angle));
        let r = s.rotated(angle);
        assert(-24_000_000 <= r.x <= 24_000_000);
        assert(-24_000_000 <= r.y <= 24_000_000);
        assert(world[i] == r.translated(SHIP_X, SHIP_Y));
    }
}

} // verus!
