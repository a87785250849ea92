//! Exhaust particles and the fixed pool that recycles them.

use vstd::prelude::*;
use crate::fixed::{minus, plus, pixel, times, ONE};
use crate::gfx::DrawCmd;
use crate::polygon::Point;
use crate::trig::{cos, sin};

verus! {

/// The number of slots of a pool.
pub const CAPACITY: usize = 30;

/// A point that flies on a straight line at constant speed for `lifetime`
/// frames.
#[derive(Clone, Copy, Debug, PartialEq, Eq, Structural)]
pub struct Particle {
    pub pos: Point,
    pub angle: i64,
    pub speed: i64,
    pub lifetime: i64,
}

impl Particle {
    /// A particle at `(x, y)` that flies along `angle` at `speed` for
    /// `lifetime` frames.
    pub fn new(x: i64, y: i64, angle: i64, speed: i64, lifetime: i64) -> (p: Self)
        ensures
            p == (Particle { pos: Point { x, y }, angle, speed, lifetime }),
    {
        Self { pos: Point::new(x, y), angle, speed, lifetime }
    }

    /// Whether the lifetime has run out.
    pub open spec fn dead(self) -> bool {
        self.lifetime <= 0
    }

    /// This particle one frame later: a frame older, and one step of length
    /// `speed` further along the direction `angle`.
    pub open spec fn advanced(self) -> Particle {
        Particle {
            pos: Point {
                x: plus(self.pos.x, times(cos(self.angle), self.speed)),
                y: plus(self.pos.y, times(sin(self.angle), self.speed)),
            },
            angle: self.angle,
            speed: self.speed,
            lifetime: minus(self.lifetime, ONE),
        }
    }

    /// The commands that draw this particle in colour `color`: none when it is
    /// dead, else one pixel at its position.
    pub open spec fn sprite(self, color: u16) -> Seq<DrawCmd> {
        if self.dead() {
            Seq::empty()
        } else {
            seq![
                DrawCmd::Color { index: color },
                DrawCmd::Rect { x: pixel(self.pos.x), y: pixel(self.pos.y), width: 1, height: 1 },
            ]
        }
    }

    /// Advances the particle by one frame.
    pub fn update(&mut self)
        ensures
            *final(self) == old(self).advanced(),
    {
        self.lifetime = minus(self.lifetime, ONE);
        self.pos.x = plus(self.pos.x, times(cos(self.angle), self.speed));
        self.pos.y = plus(self.pos.y, times(sin(self.angle), self.speed));
    }

    /// Whether the lifetime has run out.
    pub fn is_dead(&self) -> (r: bool)
        ensures
            r == self.dead(),
    {
        self.lifetime <= 0
    }

    /// The commands that draw this particle in colour `color`.
    pub fn draw(&self, color: u16) -> (r: Vec<DrawCmd>)
        ensures
            r@ == self.sprite(color),
    {
        let mut cmds: Vec<DrawCmd> = Vec::new();
        if self.is_dead() {
            return cmds;
        }
        cmds.push(DrawCmd::Color { index: color });
        cmds.push(
            DrawCmd::Rect { x: pixel(self.pos.x), y: pixel(self.pos.y), width: 1, height: 1 },
        );
        assert(cmds@ =~= self.sprite(color));
        cmds
    }
}

/// The slots of a pool that has held nothing yet: each a dead particle at
/// rest at the origin.
pub open spec fn fresh() -> Seq<Particle> {
    Seq::new(
        CAPACITY as nat,
        |i: int| Particle { pos: Point { x: 0, y: 0 }, angle: 0, speed: 0, lifetime: 0 },
    )
}

/// Whether no particle of `s` is dead.
pub open spec fn saturated(s: Seq<Particle>) -> bool {
    forall|i: int| 0 <= i < s.len() ==> !(#[trigger] s[i]).dead()
}

/// Whether slot `i` of `s` holds the first dead particle.
pub open spec fn is_first_dead(s: Seq<Particle>, i: int) -> bool {
    &&& 0 <= i < s.len()
    &&& s[i].dead()
    &&& forall|j: int| 0 <= j < i ==> !(#[trigger] s[j]).dead()
}

/// The first slot of `s` that holds a dead particle, if there is one.
pub open spec fn free_slot(s: Seq<Particle>) -> int {
    choose|i: int| is_first_dead(s, i)
}

/// The particles `s` after `p` was offered: `p` stands in the first free
/// slot, or, where every slot is alive, nothing has changed.
pub open spec fn spawned(s: Seq<Particle>, p: Particle) -> Seq<Particle> {
    if saturated(s) {
        s
    } else {
        s.update(free_slot(s), p)
    }
}

/// Only one slot is the first free one.
pub proof fn lemma_free_slot(s: Seq<Particle>, i: int)
    requires
        is_first_dead(s, i),
    ensures
        free_slot(s) == i,
        !saturated(s),
{
    let j = free_slot(s);
    assert(is_first_dead(s, j));
    if i < j {
        assert(!s[i].dead());
    } else if j < i {
        assert(!s[j].dead());
    }
}

/// The number of particles of `s` that are alive.
pub open spec fn count_alive(s: Seq<Particle>) -> nat
    decreases s.len(),
{
    if s.len() == 0 {
        0
    } else {
        count_alive(s.drop_last()) + if s.last().dead() {
            0nat
        } else {
            1nat
        }
    }
}

/// The particles of `s` one frame later: the living advanced, the dead left
/// as they are.
pub open spec fn advanced_all(s: Seq<Particle>) -> Seq<Particle> {
    Seq::new(
        s.len(),
        |i: int|
            if s[i].dead() {
                s[i]
            } else {
                s[i].advanced()
            },
    )
}

/// The commands that draw the first `n` particles of `s` in colour `color`,
/// slot by slot.
pub open spec fn sprites(s: Seq<Particle>, n: int, color: u16) -> Seq<DrawCmd>
    decreases n,
{
    if n <= 0 {
        Seq::empty()
    } else {
        sprites(s, n - 1, color) + s[n - 1].sprite(color)
    }
}

/// Where every particle is dead, none is counted alive.
pub proof fn lemma_none_alive(s: Seq<Particle>, n: int)
    requires
        0 <= n <= s.len(),
        forall|i: int| 0 <= i < s.len() ==> (#[trigger] s[i]).dead(),
    ensures
        count_alive(s.take(n)) == 0,
    decreases n,
{
    if n > 0 {
        lemma_none_alive(s, n - 1);
        assert(s.take(n).drop_last() =~= s.take(n - 1));
    }
}

/// No more particles are alive than there are slots.
pub proof fn lemma_count_alive_bounded(s: Seq<Particle>)
    ensures
        count_alive(s) <= s.len(),
    decreases s.len(),
{
    if s.len() > 0 {
        lemma_count_alive_bounded(s.drop_last());
    }
}

/// Every slot is alive exactly when the count of the living is the number of
/// slots.
pub proof fn lemma_count_alive_full(s: Seq<Particle>)
    ensures
        saturated(s) <==> count_alive(s) == s.len(),
    decreases s.len(),
{
    if s.len() > 0 {
        let t = s.drop_last();
        lemma_count_alive_full(t);
        lemma_count_alive_bounded(t);
        if saturated(s) {
            assert forall|i: int| 0 <= i < t.len() implies !(#[trigger] t[i]).dead() by {
                assert(t[i] == s[i]);
            }
            assert(!s[s.len() - 1].dead());
        }
        if count_alive(s) == s.len() {
            assert(saturated(t));
            assert forall|i: int| 0 <= i < s.len() implies !(#[trigger] s[i]).dead() by {
                if i < t.len() {
                    assert(t[i] == s[i]);
                }
            }
        }
    }
}

/// A fixed number of particle slots. A dead particle's slot is free.
#[derive(Clone, Copy, Debug)]
pub struct ParticlePool {
    slots: [Particle; 30],
}

impl View for ParticlePool {
    type V = Seq<Particle>;

    /// The particles, slot by slot.
    closed spec fn view(&self) -> Seq<Particle> {
        self.slots@
    }
}

impl ParticlePool {
    /// A pool whose slots are all free.
    pub fn new() -> (r: Self)
        ensures
            r@ == fresh(),
            count_alive(r@) == 0,
    {
        let pool = Self { slots: [Particle::new(0, 0, 0, 0, 0); 30] };
        proof {
            assert(pool@ =~= fresh());
            lemma_none_alive(fresh(), CAPACITY as int);
            assert(fresh().take(CAPACITY as int) =~= fresh());
        }
        pool
    }

    /// The pool always has `CAPACITY` slots.
    pub proof fn lemma_len(&self)
        ensures
            self@.len() == CAPACITY,
    {
    }

    /// The particle in slot `i`.
    pub fn get(&self, i: usize) -> (r: Particle)
        requires
            i < CAPACITY,
        ensures
            r == self@[i as int],
    {
        self.slots[i]
    }

    /// The number of particles that are alive.
    pub fn alive_count(&self) -> (r: usize)
        ensures
            r == count_alive(self@),
            r <= CAPACITY,
    {
        let mut count: usize = 0;
        let mut i: usize = 0;
        while i < 30
            invariant
                i <= 30,
                count <= i,
                count == count_alive(self.slots@.take(i as int)),
            decreases 30 - i,
        {
            assert(self.slots@.take(i + 1).drop_last() =~= self.slots@.take(i as int));
            if !self.slots[i].is_dead() {
                count += 1;
            }
            i += 1;
        }
        assert(self.slots@.take(30) =~= self.slots@);
        count
    }

    /// The first free slot, if there is one.
    pub fn first_dead(&self) -> (r: Option<usize>)
        ensures
            r is None <==> saturated(self@),
            r matches Some(i) ==> i == free_slot(self@) && is_first_dead(self@, i as int),
    {
        let mut i: usize = 0;
        while i < 30
            invariant
                i <= 30,
                forall|j: int| 0 <= j < i ==> !(#[trigger] self.slots@[j]).dead(),
            decreases 30 - i,
        {
            if self.slots[i].is_dead() {
                proof {
                    lemma_free_slot(self@, i as int);
                }
                return Some(i);
            }
            i += 1;
        }
        None
    }

    /// Puts a new particle into the first free slot and returns the slot.
    /// When every slot is alive the particle is dropped and the pool stays
    /// as it is.
    pub fn spawn(&mut self, x: i64, y: i64, angle: i64, speed: i64, lifetime: i64) -> (r: Option<
        usize,
    >)
        ensures
            final(self)@ == spawned(
                old(self)@,
                Particle { pos: Point { x, y }, angle, speed, lifetime },
            ),
            r is None <==> saturated(old(self)@),
            r matches Some(i) ==> i == free_slot(old(self)@) && is_first_dead(old(self)@, i as int),
            count_alive(old(self)@) == CAPACITY ==> final(self)@ == old(self)@,
            count_alive(final(self)@) <= CAPACITY,
    {
        proof {
            lemma_count_alive_full(self@);
            lemma_count_alive_bounded(self@);
        }
        let slot = self.first_dead();
        match slot {
            Some(i) => {
                proof {
                    lemma_free_slot(self@, i as int);
                }
                self.slots[i] = Particle::new(x, y, angle, speed, lifetime);
            },
            None => {},
        }
        proof {
            lemma_count_alive_bounded(self@);
        }
        slot
    }

    /// Advances every living particle by one frame.
    pub fn update_all(&mut self)
        ensures
            final(self)@ == advanced_all(old(self)@),
    {
        let mut i: usize = 0;
        while i < 30
            invariant
                i <= 30,
                forall|j: int|
                    0 <= j < i ==> #[trigger] self.slots@[j] == advanced_all(old(self).slots@)[j],
                forall|j: int| i <= j < 30 ==> #[trigger] self.slots@[j] == old(self).slots@[j],
            decreases 30 - i,
        {
            let mut p = self.slots[i];
            if !p.is_dead() {
                p.update();
                self.slots[i] = p;
            }
            i += 1;
        }
        assert(self.slots@ =~= advanced_all(old(self).slots@));
    }

    /// The commands that draw the living particles in colour `color`, slot by
    /// slot.
    pub fn draw(&self, color: u16) -> (r: Vec<DrawCmd>)
        ensures
            r@ == sprites(self@, CAPACITY as int, color),
    {
        let mut cmds: Vec<DrawCmd> = Vec::new();
        let mut i: usize = 0;
        while i < 30
            invariant
                i <= 30,
                cmds@ == sprites(self.slots@, i as int, color),
            decreases 30 - i,
        {
            let mut one = self.slots[i].draw(color);
            cmds.append(&mut one);
            i += 1;
        }
        cmds
    }
}

} // verus!
