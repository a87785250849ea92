//! The terrain: landing pads placed by the seeded stream, the height of each
//! screen column computed from noise samples, and the test of a point
//! against the column below it.
//!
//! A point is tested against one column, the one whose number is the whole
//! part of its `x`; whether a column belongs to a pad is kept beside its
//! height.
//!
//! A terrain owns the noise field it is cut from, but does not read it: the
//! field is sampled in floating point, which this crate does not touch. The
//! caller samples `noise()` where `column_coordinate` and `pad_coordinate`
//! say, and hands the samples to `draw` as millionths.

use vstd::prelude::*;
use crate::fixed::{divide, from_whole, minus, plus, times, whole, ONE};
use crate::gfx::DrawCmd;
use crate::noise::{advance, fraction, mantissa, rng_output, rng_successor, PSNG};
use crate::polygon::Point;
use crate::ship::{
    clamp_scale, zoom_clamp, Craft, Ship, DEGREES_PER_RADIAN, MAX_SCALE, MIN_SCALE, SHEAR_LIMIT,
    SPEED_LIMIT, TILT_LIMIT,
};

verus! {

/// The width and the height of the screen, in pixels.
pub const SCREEN_SZ: i32 = 160;

/// Half the width of the screen: the column of the craft.
pub const SCREEN_SZ_H: i32 = 80;

/// The number of landing pads.
pub const PAD_COUNT: usize = 4;

/// The width of a pad, in noise coordinates.
pub const PAD_SZ: i64 = 500_000;

/// The row of the noise field that the terrain is cut from.
pub const Y: i64 = 183_800_000;

/// The height that the full swing of the noise spans at zoom one.
pub const HIGH: i64 = 160_000_000;

/// The world distance that one unit of the noise field spans.
pub const SMOOTH: i64 = 40_000_000;

/// How far the terrain is sunk below the craft at zoom one.
pub const SINK: i64 = 110_000_000;

/// The noise coordinate of the column in which a craft starts.
pub const SPAWN: i64 = 5_000_000;

/// The width of the range over which pads are spread: eighteen units of the
/// noise field less the gap kept free at the spawn column.
pub const SPREAD: i64 = 17_500_000;

/// A point is clear of the column below it.
pub const NO_CONTACT: u8 = 0;

/// A pad was reached within every limit.
pub const LANDED: u8 = 1;

/// The ground beside the pads was hit.
pub const CRASHED: u8 = 2;

/// A pad was reached too fast.
pub const TOO_FAST: u8 = 3;

/// A pad was reached too far from upright.
pub const TOO_STEEP: u8 = 4;

/// A pad was reached while drifting to the right.
pub const SHEARED: u8 = 5;

/// The place of a pad for the fraction `f` of the stream: `f` spread over
/// `SPREAD`, and moved past the spawn column where the pad would span it.
pub open spec fn spec_place_pad(f: i64) -> i64 {
    let u = times(f, SPREAD);
    if u >= SPAWN - PAD_SZ {
        plus(u, PAD_SZ)
    } else {
        u
    }
}

/// The noise coordinate of screen column `x` for a view centred on world
/// position `x_offset` at zoom `scale`.
pub open spec fn coordinate(scale: i64, x_offset: i64, x: int) -> i64 {
    plus(
        divide(x_offset, SMOOTH),
        divide(from_whole((x - SCREEN_SZ_H) as i32), times(SMOOTH, scale)),
    )
}

/// The rise of terrain with noise sample `n` at zoom `scale`: the sample is
/// carried from the span between minus one and one to the span between zero
/// and `HIGH`, then scaled.
pub open spec fn spec_swing(n: i64, scale: i64) -> i64 {
    times(times(divide(plus(n, ONE), 2_000_000), HIGH), scale)
}

/// The height on the screen of terrain with noise sample `n`, at zoom `scale`
/// for a craft at depth `y_offset`: the rise, lifted by the depth of the
/// craft and sunk by `SINK` at that zoom.
pub open spec fn spec_elevation(n: i64, scale: i64, y_offset: i64) -> i64 {
    minus(plus(spec_swing(n, scale), y_offset), times(SINK, scale))
}

/// The whole part of `h`, kept within `i16`.
pub open spec fn spec_level(h: i64) -> i16 {
    let w = whole(h);
    if w < i16::MIN {
        i16::MIN
    } else if w > i16::MAX {
        i16::MAX
    } else {
        w as i16
    }
}

/// Whether the pad at `pad` spans the noise coordinate `xz`.
pub open spec fn spec_covers(pad: i64, xz: i64) -> bool {
    pad < xz && xz < plus(pad, PAD_SZ)
}

/// The last of the first `n` pads that spans `xz`, if any does.
pub open spec fn covering(pads: Seq<i64>, xz: i64, n: int) -> Option<int>
    decreases n,
{
    if n <= 0 {
        None
    } else if spec_covers(pads[n - 1], xz) {
        Some(n - 1)
    } else {
        covering(pads, xz, n - 1)
    }
}

/// What a craft in state `craft` makes of reaching a pad: the first limit
/// that it breaks, in the order speed, tilt, drift, or a safe landing.
pub open spec fn landing(craft: Craft) -> u8 {
    if craft.speed() > SPEED_LIMIT {
        TOO_FAST
    } else if craft.tilt() > TILT_LIMIT || craft.tilt() < -TILT_LIMIT {
        TOO_STEEP
    } else if craft.velocity.x > SHEAR_LIMIT {
        SHEARED
    } else {
        LANDED
    }
}

/// The commands that draw column `x` with terrain of height `level`: the
/// ground as a vertical line, and on a pad its deck and a beacon above.
pub open spec fn column_cmds(x: int, level: i16, pad: bool) -> Seq<DrawCmd> {
    let top = (SCREEN_SZ - level) as i32;
    let ground = seq![
        DrawCmd::Color { index: 2 },
        DrawCmd::Line { x1: x as i32, y1: SCREEN_SZ, x2: x as i32, y2: top },
    ];
    if pad {
        ground + seq![
            DrawCmd::Color { index: 4 },
            DrawCmd::Rect { x: x as i32, y: top, width: 1, height: 1 },
            DrawCmd::Rect { x: x as i32, y: (top + 2) as i32, width: 1, height: 1 },
            DrawCmd::Color { index: 2 },
            DrawCmd::Rect { x: x as i32, y: (18 + x % 3) as i32, width: 1, height: 1 },
        ]
    } else {
        ground
    }
}

/// The commands that draw the first `n` columns, from the left.
pub open spec fn terrain_cmds(heights: Seq<i16>, pads: Seq<bool>, n: int) -> Seq<DrawCmd>
    decreases n,
{
    if n <= 0 {
        Seq::empty()
    } else {
        terrain_cmds(heights, pads, n - 1) + column_cmds(n - 1, heights[n - 1], pads[n - 1])
    }
}

/// What a terrain is made of.
pub struct Terrain {
    /// The seed of the noise field.
    pub seed: u64,
    /// The noise coordinate at which each pad begins.
    pub pad_locations: Seq<i64>,
    /// The height of the terrain in each screen column, from the bottom of
    /// the screen.
    pub heights: Seq<i16>,
    /// Whether each screen column belongs to a pad.
    pub pads: Seq<bool>,
    /// The zoom factor of the view.
    pub scale: i64,
}

impl Terrain {
    /// What holds of every terrain: one entry for each pad and each column,
    /// a zoom factor within its limits, and no pad that spans the column in
    /// which a craft starts.
    pub open spec fn wf(self) -> bool {
        &&& self.pad_locations.len() == PAD_COUNT
        &&& self.heights.len() == SCREEN_SZ
        &&& self.pads.len() == SCREEN_SZ
        &&& MIN_SCALE <= self.scale <= MAX_SCALE
        &&& forall|i: int|
            0 <= i < PAD_COUNT ==> 0 <= #[trigger] self.pad_locations[i] < 18_000_000
                && !spec_covers(self.pad_locations[i], SPAWN)
    }

    /// The terrain that `seed` generates: flat, at zoom one, its pads placed
    /// by the first four fractions of the stream for `seed`.
    pub open spec fn generated(seed: u32) -> Terrain {
        Terrain {
            seed: seed as u64,
            pad_locations: Seq::new(
                PAD_COUNT as nat,
                |i: int|
                    spec_place_pad(fraction(rng_output(advance(rng_successor(seed as u64), i)))),
            ),
            heights: Seq::new(SCREEN_SZ as nat, |x: int| 0i16),
            pads: Seq::new(SCREEN_SZ as nat, |x: int| false),
            scale: ONE,
        }
    }

    /// The pad that gives column `x` its height, if the column is on one.
    pub open spec fn pad_under(self, x_offset: i64, x: int) -> Option<int> {
        covering(self.pad_locations, coordinate(self.scale, x_offset, x), PAD_COUNT as int)
    }

    /// The height of column `x`: that of the far end of the pad it is on, else
    /// that of its own noise sample.
    pub open spec fn column_level(
        self,
        x_offset: i64,
        y_offset: i64,
        noise: Seq<i64>,
        pad_noise: Seq<i64>,
        x: int,
    ) -> i16 {
        match self.pad_under(x_offset, x) {
            Some(i) => spec_level(spec_elevation(pad_noise[i], self.scale, y_offset)),
            None => spec_level(spec_elevation(noise[x], self.scale, y_offset)),
        }
    }

    /// This terrain after every column was computed anew for a craft at
    /// `(x_offset, y_offset)`, from the noise samples of the columns and of
    /// the pads.
    pub open spec fn drawn(
        self,
        x_offset: i64,
        y_offset: i64,
        noise: Seq<i64>,
        pad_noise: Seq<i64>,
    ) -> Terrain {
        Terrain {
            heights: Seq::new(
                SCREEN_SZ as nat,
                |x: int| self.column_level(x_offset, y_offset, noise, pad_noise, x),
            ),
            pads: Seq::new(SCREEN_SZ as nat, |x: int| self.pad_under(x_offset, x) is Some),
            ..self
        }
    }

    /// Whether the point `p` lies below the top of the terrain in its column.
    pub open spec fn touches(self, p: Point) -> bool {
        p.y > from_whole((SCREEN_SZ - self.heights[whole(p.x) as int]) as i32)
    }

    /// What becomes of a craft in state `craft` whose hull has a vertex at
    /// `p`.
    pub open spec fn contact(self, p: Point, craft: Craft) -> u8 {
        if !self.touches(p) {
            NO_CONTACT
        } else if self.pads[whole(p.x) as int] {
            landing(craft)
        } else {
            CRASHED
        }
    }
}

/// A noise sample between minus one and one rises between zero and `HIGH`
/// at zoom one, and in proportion at every other zoom.
pub proof fn lemma_swing_in_range(n: i64, scale: i64)
    requires
        -ONE <= n <= ONE,
        0 <= scale <= MAX_SCALE,
    ensures
        0 <= spec_swing(n, scale) <= times(HIGH, scale),
        spec_swing(n, ONE) <= HIGH,
        spec_swing((-ONE) as i64, scale) == 0,
        spec_swing(ONE, scale) == times(HIGH, scale),
{
    let half = divide(plus(n, ONE), 2_000_000);
    crate::fixed::lemma_divide_positive(plus(n, ONE), 2_000_000);
    crate::fixed::lemma_divide_positive(0, 2_000_000);
    crate::fixed::lemma_divide_positive(2_000_000, 2_000_000);
    assert(0 <= half <= ONE);
    assert(0 <= half * HIGH <= 160_000_000 * ONE) by (nonlinear_arith)
        requires
            0 <= half <= ONE,
            HIGH == 160_000_000,
    ;
    let full = times(half, HIGH);
    assert(0 <= full <= HIGH);
    assert(0 <= full * scale <= HIGH * scale <= 160_000_000 * 2_000_000) by (nonlinear_arith)
        requires
            0 <= full <= HIGH,
            HIGH == 160_000_000,
            0 <= scale <= 2_000_000,
    ;
    crate::fixed::lemma_times_whole(1, HIGH);
    crate::fixed::lemma_times_whole(0, HIGH);
    crate::fixed::lemma_times_whole(0, scale);
}

/// Every fraction of the stream is at least zero and less than one.
pub proof fn lemma_fraction_in_unit(bits: u32)
    ensures
        0 <= fraction(bits) < ONE,
{
}

/// Every generated terrain is well formed: in particular none of its pads
/// spans the column in which a craft starts.
pub proof fn lemma_generated_wf(seed: u32)
    ensures
        Terrain::generated(seed).wf(),
{
    let t = Terrain::generated(seed);
    assert forall|i: int| 0 <= i < PAD_COUNT implies 0 <= #[trigger] t.pad_locations[i]
        < 18_000_000 && !spec_covers(t.pad_locations[i], SPAWN) by {
        let f = fraction(rng_output(advance(rng_successor(seed as u64), i)));
        lemma_fraction_in_unit(rng_output(advance(rng_successor(seed as u64), i)));
        assert(0 <= f * SPREAD < 17_500_000 * ONE) by (nonlinear_arith)
            requires
                0 <= f < ONE,
                SPREAD == 17_500_000,
        ;
    }
}

/// Generation is a function of the seed: two terrains generated for one
/// seed have the same pads and the same heights, and they still agree after
/// both were drawn for the same view from the same samples.
pub proof fn lemma_generation_is_deterministic(
    a: Surface,
    b: Surface,
    seed: u32,
    x_offset: i64,
    y_offset: i64,
    noise: Seq<i64>,
    pad_noise: Seq<i64>,
)
    requires
        a@ == Terrain::generated(seed),
        b@ == Terrain::generated(seed),
    ensures
        a@.pad_locations == b@.pad_locations,
        a@.heights == b@.heights,
        a@.pads == b@.pads,
        a@.drawn(x_offset, y_offset, noise, pad_noise) == b@.drawn(
            x_offset,
            y_offset,
            noise,
            pad_noise,
        ),
{
}

/// Whether the point `p` lies above one of the screen's columns.
pub open spec fn in_view(p: Point) -> bool {
    0 <= p.x < SCREEN_SZ * ONE
}

/// The place of a pad for the fraction `f` of the stream.
#[verifier::when_used_as_spec(spec_place_pad)]
pub fn place_pad(f: i64) -> (r: i64)
    ensures
        r == spec_place_pad(f),
        0 <= f < ONE ==> 0 <= r < 18_000_000 && !spec_covers(r, SPAWN),
{
    let u: i64 = times(f, SPREAD);
    proof {
        if 0 <= f < ONE {
            assert(0 <= f * SPREAD < 17_500_000 * ONE) by (nonlinear_arith)
                requires
                    0 <= f < ONE,
                    SPREAD == 17_500_000,
            ;
            assert(0 <= u < 17_500_000);
        }
    }
    if u >= SPAWN - PAD_SZ {
        plus(u, PAD_SZ)
    } else {
        u
    }
}

/// The height on the screen of terrain with noise sample `n`.
#[verifier::when_used_as_spec(spec_elevation)]
pub fn elevation(n: i64, scale: i64, y_offset: i64) -> (r: i64)
    ensures
        r == spec_elevation(n, scale, y_offset),
{
    let swing: i64 = times(times(divide(plus(n, ONE), 2_000_000), HIGH), scale);
    minus(plus(swing, y_offset), times(SINK, scale))
}

/// The whole part of `h`, kept within `i16`.
#[verifier::when_used_as_spec(spec_level)]
pub fn level(h: i64) -> (r: i16)
    ensures
        r == spec_level(h),
{
    let w: i64 = whole(h);
    if w < i16::MIN as i64 {
        i16::MIN
    } else if w > i16::MAX as i64 {
        i16::MAX
    } else {
        w as i16
    }
}

/// Whether the pad at `pad` spans the noise coordinate `xz`.
#[verifier::when_used_as_spec(spec_covers)]
pub fn covers(pad: i64, xz: i64) -> (r: bool)
    ensures
        r == spec_covers(pad, xz),
{
    pad < xz && xz < plus(pad, PAD_SZ)
}

/// `noilib_simple::NoiseGenerator`, a noise field: carried, never read.
#[verifier::external_type_specification]
#[verifier::external_body]
pub struct ExNoiseGenerator(noilib_simple::NoiseGenerator);

/// Makes the noise field for `seed` with `noilib_simple::NoiseGenerator::new`,
/// which fills the field's table from `seed` by a fixed recurrence and cannot
/// fail. Nothing is claimed of the field.
#[verifier::external_body]
fn noise_field(seed: u64) -> noilib_simple::NoiseGenerator {
    noilib_simple::NoiseGenerator::new(seed)
}

/// The terrain of one game.
pub struct Surface {
    noise: noilib_simple::NoiseGenerator,
    seed: u64,
    pad_locations: [i64; 4],
    heights: [i16; 160],
    pads: [bool; 160],
    scale: i64,
}

impl View for Surface {
    type V = Terrain;

    /// What the terrain is made of; the noise field is not part of it.
    closed spec fn view(&self) -> Terrain {
        Terrain {
            seed: self.seed,
            pad_locations: self.pad_locations@,
            heights: self.heights@,
            pads: self.pads@,
            scale: self.scale,
        }
    }
}

impl Surface {
    #[verifier::type_invariant]
    spec fn inv(self) -> bool {
        self@.wf()
    }

    /// Generates the terrain for `seed`. The stream `rng` is started anew
    /// from `seed`, and its first four fractions place the pads.
    pub fn new(seed: u32, rng: &mut PSNG) -> (r: Self)
        ensures
            r@ == Terrain::generated(seed),
            r@.wf(),
            final(rng).state() == advance(rng_successor(seed as u64), PAD_COUNT as int),
            final(rng).z() == mantissa(rng_output(seed as u64)) * 512,
    {
        *rng = PSNG::new(seed as u64);
        let mut pad_locations: [i64; 4] = [0; 4];
        let mut i: usize = 0;
        while i < 4
            invariant
                i <= 4,
                rng.state() == advance(rng_successor(seed as u64), i as int),
                rng.z() == mantissa(rng_output(seed as u64)) * 512,
                forall|j: int|
                    0 <= j < i ==> #[trigger] pad_locations@[j] == spec_place_pad(
                        fraction(rng_output(advance(rng_successor(seed as u64), j))),
                    ),
                forall|j: int|
                    0 <= j < i ==> 0 <= #[trigger] pad_locations@[j] < 18_000_000 && !spec_covers(
                        pad_locations@[j],
                        SPAWN,
                    ),
                forall|j: int| i <= j < 4 ==> #[trigger] pad_locations@[j] == 0,
            decreases 4 - i,
        {
            let f: i64 = rng.next();
            pad_locations[i] = place_pad(f);
            i += 1;
        }
        let heights: [i16; 160] = [0; 160];
        let pads: [bool; 160] = [false; 160];
        let surface = Surface {
            noise: noise_field(seed as u64),
            seed: seed as u64,
            pad_locations,
            heights,
            pads,
            scale: ONE,
        };
        proof {
            assert(surface@.pad_locations =~= Terrain::generated(seed).pad_locations);
            assert(surface@.heights =~= Terrain::generated(seed).heights);
            assert(surface@.pads =~= Terrain::generated(seed).pads);
        }
        surface
    }

    /// The noise field that the terrain owns. It is made when the terrain is
    /// generated, and neither `draw` nor `set_scale` puts another in its
    /// place.
    pub closed spec fn field(&self) -> noilib_simple::NoiseGenerator {
        self.noise
    }

    /// The noise field that the terrain is cut from: the one made for
    /// `seed()`.
    pub fn noise(&self) -> (r: &noilib_simple::NoiseGenerator)
        ensures
            *r == self.field(),
    {
        &self.noise
    }

    /// The seed of the noise field that the terrain is cut from.
    pub fn seed(&self) -> (r: u64)
        ensures
            r == self@.seed,
    {
        self.seed
    }

    /// The zoom factor of the view.
    pub fn scale(&self) -> (r: i64)
        ensures
            r == self@.scale,
            MIN_SCALE <= r <= MAX_SCALE,
    {
        proof {
            use_type_invariant(self);
        }
        self.scale
    }

    /// Sets the zoom factor, kept between `MIN_SCALE` and `MAX_SCALE`.
    pub fn set_scale(&mut self, scale: i64)
        ensures
            final(self)@ == (Terrain { scale: clamp_scale(scale), ..old(self)@ }),
            final(self).field() == old(self).field(),
    {
        proof {
            use_type_invariant(&*self);
        }
        self.scale = zoom_clamp(scale);
    }

    /// The noise coordinate at which pad `i` begins.
    pub fn pad_location(&self, i: usize) -> (r: i64)
        requires
            i < PAD_COUNT,
        ensures
            r == self@.pad_locations[i as int],
            0 <= r < 18_000_000,
            !spec_covers(r, SPAWN),
    {
        proof {
            use_type_invariant(self);
        }
        self.pad_locations[i]
    }

    /// The height of the terrain in column `x`.
    pub fn height(&self, x: usize) -> (r: i16)
        requires
            x < SCREEN_SZ,
        ensures
            r == self@.heights[x as int],
    {
        self.heights[x]
    }

    /// Whether column `x` belongs to a pad.
    pub fn is_pad(&self, x: usize) -> (r: bool)
        requires
            x < SCREEN_SZ,
        ensures
            r == self@.pads[x as int],
    {
        self.pads[x]
    }

    /// The noise coordinate of screen column `x` for a view centred on world
    /// position `x_offset`: where the sample of that column is taken, in row
    /// `Y`.
    pub fn column_coordinate(&self, x_offset: i64, x: usize) -> (r: i64)
        requires
            x < SCREEN_SZ,
        ensures
            r == coordinate(self@.scale, x_offset, x as int),
    {
        proof {
            use_type_invariant(self);
        }
        let zoom: i64 = times(SMOOTH, self.scale);
        proof {
            crate::fixed::lemma_times_whole(40, self.scale);
        }
        plus(divide(x_offset, SMOOTH), divide(from_whole(x as i32 - SCREEN_SZ_H), zoom))
    }

    /// The noise coordinate of the far end of pad `i`: where the sample that
    /// gives the pad its height is taken, in row `Y`.
    pub fn pad_coordinate(&self, i: usize) -> (r: i64)
        requires
            i < PAD_COUNT,
        ensures
            r == self@.pad_locations[i as int] + PAD_SZ,
    {
        proof {
            use_type_invariant(self);
        }
        self.pad_locations[i] + PAD_SZ
    }

    /// Computes every column anew for a craft at `(x_offset, y_offset)`, and
    /// returns the commands that draw the terrain. `noise[x]` is the sample
    /// of the noise field at `column_coordinate(x_offset, x)`, and
    /// `pad_noise[i]` the sample at `pad_coordinate(i)`, both in row `Y`.
    pub fn draw(
        &mut self,
        x_offset: i64,
        y_offset: i64,
        noise: &[i64; 160],
        pad_noise: &[i64; 4],
    ) -> (frame: Vec<DrawCmd>)
        ensures
            final(self)@ == old(self)@.drawn(x_offset, y_offset, noise@, pad_noise@),
            final(self).field() == old(self).field(),
            frame@ == terrain_cmds(final(self)@.heights, final(self)@.pads, SCREEN_SZ as int),
    {
        proof {
            use_type_invariant(&*self);
        }
        let ghost start = self@;
        let ghost goal = start.drawn(x_offset, y_offset, noise@, pad_noise@);
        let mut frame: Vec<DrawCmd> = Vec::new();
        let mut x: usize = 0;
        while x < 160
            invariant
                x <= 160,
                start.wf(),
                goal == start.drawn(x_offset, y_offset, noise@, pad_noise@),
                self.noise == old(self).noise,
                self.seed == start.seed,
                self.scale == start.scale,
                self.pad_locations@ == start.pad_locations,
                forall|j: int| 0 <= j < x ==> #[trigger] self.heights@[j] == goal.heights[j],
                forall|j: int| 0 <= j < x ==> #[trigger] self.pads@[j] == goal.pads[j],
                frame@ == terrain_cmds(goal.heights, goal.pads, x as int),
            decreases 160 - x,
        {
            let xz: i64 = self.column_coordinate(x_offset, x);
            let mut h: i64 = elevation(noise[x], self.scale, y_offset);
            let mut is_pad: bool = false;
            let mut i: usize = 0;
            while i < 4
                invariant
                    i <= 4,
                    x < 160,
                    self.noise == old(self).noise,
                    self.scale == start.scale,
                    self.pad_locations@ == start.pad_locations,
                    is_pad == (covering(start.pad_locations, xz, i as int) is Some),
                    h == match covering(start.pad_locations, xz, i as int) {
                        Some(k) => spec_elevation(pad_noise@[k], start.scale, y_offset),
                        None => spec_elevation(noise@[x as int], start.scale, y_offset),
                    },
                decreases 4 - i,
            {
                if covers(self.pad_locations[i], xz) {
                    h = elevation(pad_noise[i], self.scale, y_offset);
                    is_pad = true;
                }
                i += 1;
            }
            let top: i16 = level(h);
            assert(top == goal.heights[x as int]);
            assert(is_pad == goal.pads[x as int]);
            self.heights[x] = top;
            self.pads[x] = is_pad;

            let px: i32 = x as i32;
            let py: i32 = SCREEN_SZ - top as i32;
            frame.push(DrawCmd::Color { index: 2 });
            frame.push(DrawCmd::Line { x1: px, y1: SCREEN_SZ, x2: px, y2: py });
            if is_pad {
                frame.push(DrawCmd::Color { index: 4 });
                frame.push(DrawCmd::Rect { x: px, y: py, width: 1, height: 1 });
                frame.push(DrawCmd::Rect { x: px, y: py + 2, width: 1, height: 1 });
                frame.push(DrawCmd::Color { index: 2 });
                frame.push(DrawCmd::Rect { x: px, y: 18 + px % 3, width: 1, height: 1 });
            }
            assert(frame@ =~= terrain_cmds(goal.heights, goal.pads, x as int) + column_cmds(
                x as int,
                top,
                is_pad,
            ));
            x += 1;
        }
        proof {
            assert(self@.heights =~= goal.heights);
            assert(self@.pads =~= goal.pads);
        }
        frame
    }

    /// What becomes of `ship` when its hull has a vertex at `(x, y)` on the
    /// screen: `NO_CONTACT` while the vertex is clear of the terrain in its
    /// column, `CRASHED` when it is not and the column is off the pads, and
    /// on a pad the verdict on the landing.
    pub fn check_collision(&self, x: i64, y: i64, ship: &Ship) -> (r: u8)
        requires
            in_view(Point { x, y }),
        ensures
            r == self@.contact(Point { x, y }, ship@),
            r <= SHEARED,
            r == NO_CONTACT <==> !self@.touches(Point { x, y }),
            self@.touches(Point { x, y }) && !self@.pads[whole(x) as int] ==> r == CRASHED,
            self@.touches(Point { x, y }) && self@.pads[whole(x) as int] ==> r == landing(ship@),
    {
        let column: usize = whole(x) as usize;
        let h: i16 = self.heights[column];
        if y > from_whole(SCREEN_SZ - h as i32) {
            if self.pads[column] {
                let craft = ship.state();
                let tilt: i64 = plus(times(craft.angle, DEGREES_PER_RADIAN), from_whole(90));
                if ship.get_speed() > SPEED_LIMIT {
                    return TOO_FAST;
                }
                if tilt > TILT_LIMIT || tilt < -TILT_LIMIT {
                    return TOO_STEEP;
                }
                if craft.velocity.x > SHEAR_LIMIT {
                    return SHEARED;
                }
                return LANDED;
            }
            return CRASHED;
        }
        NO_CONTACT
    }
}

} // verus!
