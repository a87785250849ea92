//! Points and polygons, and the three transforms that carry a hull part from
//! its template to the screen: scale, then rotate, then translate.

use vstd::prelude::*;
use crate::fixed::{minus, plus, pixel, times};
use crate::gfx::DrawCmd;
use crate::ship::{Craft, Ship};
use crate::surface::{in_view, Surface, Terrain, NO_CONTACT};
use crate::trig::{cos, sin};

verus! {

/// A point of the plane, in fixed-point coordinates.
#[derive(Clone, Copy, Debug, PartialEq, Eq, Structural)]
pub struct Point {
    pub x: i64,
    pub y: i64,
}

/// An ordered list of points. The order is the order of insertion; the last
/// point is joined to the first when the polygon is drawn.
#[derive(Debug)]
pub struct Polygon {
    pub points: Vec<Point>,
}

impl Point {
    /// The point `(x, y)`.
    pub fn new(x: i64, y: i64) -> (p: Self)
        ensures
            p == (Point { x, y }),
    {
        Self { x, y }
    }

    /// This point with both coordinates multiplied by `k`.
    pub open spec fn scaled(self, k: i64) -> Point {
        Point { x: times(self.x, k), y: times(self.y, k) }
    }

    /// This point turned about the origin by `angle`.
    pub open spec fn rotated(self, angle: i64) -> Point {
        Point {
            x: minus(times(self.x, cos(angle)), times(self.y, sin(angle))),
            y: plus(times(self.x, sin(angle)), times(self.y, cos(angle))),
        }
    }

    /// This point moved by `(dx, dy)`.
    pub open spec fn translated(self, dx: i64, dy: i64) -> Point {
        Point { x: plus(self.x, dx), y: plus(self.y, dy) }
    }
}

/// Every point of `s` multiplied by `k`.
pub open spec fn scaled_all(s: Seq<Point>, k: i64) -> Seq<Point> {
    Seq::new(s.len(), |i: int| s[i].scaled(k))
}

/// Every point of `s` turned about the origin by `angle`.
pub open spec fn rotated_all(s: Seq<Point>, angle: i64) -> Seq<Point> {
    Seq::new(s.len(), |i: int| s[i].rotated(angle))
}

/// Every point of `s` moved by `(dx, dy)`.
pub open spec fn translated_all(s: Seq<Point>, dx: i64, dy: i64) -> Seq<Point> {
    Seq::new(s.len(), |i: int| s[i].translated(dx, dy))
}

/// The transforms that change nothing: scaling by one, turning by no angle,
/// and moving by no distance leave every point where it is.
pub proof fn lemma_identity_transforms(p: Point)
    ensures
        p.scaled(crate::fixed::ONE) == p,
        p.rotated(0) == p,
        p.translated(0, 0) == p,
{
    crate::trig::lemma_axes();
    crate::fixed::lemma_times_whole(1, p.x);
    crate::fixed::lemma_times_whole(1, p.y);
    assert(p.x * crate::fixed::ONE == crate::fixed::ONE * p.x) by (nonlinear_arith);
    assert(p.y * crate::fixed::ONE == crate::fixed::ONE * p.y) by (nonlinear_arith);
    assert(p.x * 0 == 0 && p.y * 0 == 0) by (nonlinear_arith);
}

/// The line from point `i` of `s` to the point after it, the last point
/// being followed by the first.
pub open spec fn edge(s: Seq<Point>, i: int) -> DrawCmd
    recommends
        0 <= i < s.len(),
{
    let p = s[i];
    let q = s[(i + 1) % (s.len() as int)];
    DrawCmd::Line { x1: pixel(p.x), y1: pixel(p.y), x2: pixel(q.x), y2: pixel(q.y) }
}

/// The commands that draw the closed outline of `s` in colour `color`.
pub open spec fn outline(s: Seq<Point>, color: u16) -> Seq<DrawCmd> {
    seq![DrawCmd::Color { index: color }] + Seq::new(s.len(), |i: int| edge(s, i))
}

/// The outcome of the first vertex of `s`, from index `from` on, that is
/// not clear of the terrain; `NO_CONTACT` if every one is clear.
pub open spec fn first_contact(s: Seq<Point>, terrain: Terrain, craft: Craft, from: int) -> u8
    decreases s.len() - from,
{
    if from < 0 || from >= s.len() {
        NO_CONTACT
    } else if terrain.contact(s[from], craft) != NO_CONTACT {
        terrain.contact(s[from], craft)
    } else {
        first_contact(s, terrain, craft, from + 1)
    }
}

impl View for Polygon {
    type V = Seq<Point>;

    /// The points in their order.
    open spec fn view(&self) -> Seq<Point> {
        self.points@
    }
}

impl Polygon {
    /// The polygon without points.
    pub fn new() -> (r: Self)
        ensures
            r@ == Seq::<Point>::empty(),
    {
        Self { points: Vec::new() }
    }

    /// Appends the point `(x, y)`.
    pub fn add_point(&mut self, x: i64, y: i64)
        ensures
            final(self)@ == old(self)@.push(Point { x, y }),
    {
        self.points.push(Point { x, y });
    }

    /// The commands that draw the closed outline in colour `color`.
    pub fn draw(&self, color: u16) -> (r: Vec<DrawCmd>)
        ensures
            r@ == outline(self@, color),
    {
        let mut cmds: Vec<DrawCmd> = Vec::new();
        cmds.push(DrawCmd::Color { index: color });
        let n: usize = self.points.len();
        let mut i: usize = 0;
        while i < n
            invariant
                n == self.points.len(),
                i <= n,
                cmds@ == seq![DrawCmd::Color { index: color }] + Seq::new(
                    i as nat,
                    |j: int| edge(self@, j),
                ),
            decreases n - i,
        {
            let p = self.points[i];
            let q = self.points[if i + 1 == n { 0 } else { i + 1 }];
            cmds.push(
                DrawCmd::Line { x1: pixel(p.x), y1: pixel(p.y), x2: pixel(q.x), y2: pixel(q.y) },
            );
            proof {
                if i + 1 == n {
                    vstd::arithmetic::div_mod::lemma_mod_self_0(n as int);
                } else {
                    vstd::arithmetic::div_mod::lemma_small_mod((i + 1) as nat, n as nat);
                }
                assert(cmds@ =~= seq![DrawCmd::Color { index: color }] + Seq::new(
                    (i + 1) as nat,
                    |j: int| edge(self@, j),
                ));
            }
            i += 1;
        }
        cmds
    }

    /// Moves every point by `(x, y)`.
    pub fn translate(&mut self, x: i64, y: i64)
        ensures
            final(self)@ == translated_all(old(self)@, x, y),
    {
        let n: usize = self.points.len();
        let mut i: usize = 0;
        while i < n
            invariant
                n == self.points.len(),
                n == old(self).points@.len(),
                i <= n,
                forall|j: int|
                    0 <= j < i ==> #[trigger] self.points@[j] == old(self).points@[j].translated(x, y),
                forall|j: int| i <= j < n ==> #[trigger] self.points@[j] == old(self).points@[j],
            decreases n - i,
        {
            let p = self.points[i];
            self.points[i] = Point { x: plus(p.x, x), y: plus(p.y, y) };
            i += 1;
        }
        assert(self@ =~= translated_all(old(self)@, x, y));
    }

    /// Turns every point about the origin by `angle`.
    pub fn rotate(&mut self, angle: i64)
        ensures
            final(self)@ == rotated_all(old(self)@, angle),
    {
        let c: i64 = cos(angle);
        let s: i64 = sin(angle);
        let n: usize = self.points.len();
        let mut i: usize = 0;
        while i < n
            invariant
                n == self.points.len(),
                n == old(self).points@.len(),
                i <= n,
                c == cos(angle),
                s == sin(angle),
                forall|j: int|
                    0 <= j < i ==> #[trigger] self.points@[j] == old(self).points@[j].rotated(angle),
                forall|j: int| i <= j < n ==> #[trigger] self.points@[j] == old(self).points@[j],
            decreases n - i,
        {
            let p = self.points[i];
            self.points[i] = Point {
                x: minus(times(p.x, c), times(p.y, s)),
                y: plus(times(p.x, s), times(p.y, c)),
            };
            i += 1;
        }
        assert(self@ =~= rotated_all(old(self)@, angle));
    }

    /// Multiplies every point by `scale`.
    pub fn scale(&mut self, scale: i64)
        ensures
            final(self)@ == scaled_all(old(self)@, scale),
    {
        let n: usize = self.points.len();
        let mut i: usize = 0;
        while i < n
            invariant
                n == self.points.len(),
                n == old(self).points@.len(),
                i <= n,
                forall|j: int|
                    0 <= j < i ==> #[trigger] self.points@[j] == old(self).points@[j].scaled(scale),
                forall|j: int| i <= j < n ==> #[trigger] self.points@[j] == old(self).points@[j],
            decreases n - i,
        {
            let p = self.points[i];
            self.points[i] = Point { x: times(p.x, scale), y: times(p.y, scale) };
            i += 1;
        }
        assert(self@ =~= scaled_all(old(self)@, scale));
    }

    /// Tests the vertices against the terrain in their order, and returns the
    /// outcome of the first that is not clear of it.
    pub fn check_collision(&self, surface: &Surface, ship: &Ship) -> (r: u8)
        requires
            forall|i: int| 0 <= i < self@.len() ==> in_view(#[trigger] self@[i]),
        ensures
            r == first_contact(self@, surface@, ship@, 0),
    {
        let n: usize = self.points.len();
        let mut i: usize = 0;
        assert(self@ == self.points@);
        while i < n
            invariant
                n == self.points.len(),
                i <= n,
                forall|j: int| 0 <= j < self.points@.len() ==> in_view(#[trigger] self.points@[j]),
                first_contact(self@, surface@, ship@, 0) == first_contact(
                    self@,
                    surface@,
                    ship@,
                    i as int,
                ),
            decreases n - i,
        {
            let p = self.points[i];
            let c: u8 = surface.check_collision(p.x, p.y, ship);
            if c != NO_CONTACT {
                return c;
            }
            i += 1;
        }
        NO_CONTACT
    }

    /// A copy with the same points in the same order.
    pub fn clone(&self) -> (r: Polygon)
        ensures
            r@ == self@,
    {
        let mut copy = Polygon::new();
        let n: usize = self.points.len();
        let mut i: usize = 0;
        while i < n
            invariant
                n == self.points.len(),
                i <= n,
                copy@ == self@.take(i as int),
            decreases n - i,
        {
            let p = self.points[i];
            copy.add_point(p.x, p.y);
            assert(copy@ =~= self@.take(i + 1));
            i += 1;
        }
        assert(self@.take(n as int) =~= self@);
        copy
    }
}

} // verus!
