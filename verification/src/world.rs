//! The particle world: a growing collection of balls, each with a
//! fixed-point position, velocity and color. One tick spawns one ball,
//! reflects velocities at the world boundary, then integrates positions and
//! applies gravity; the two per-ball passes run in parallel.

use vstd::prelude::*;
use rayon::iter::IntoParallelRefMutIterator;
use rayon::iter::ParallelIterator;
use crate::raster::DrawBatch;
use crate::raster::MAX_CENTER;
use crate::raster::draw_circle;
use crate::raster::in_disk;

verus! {

/// Fixed-point scale: one pixel is `SCALE` coordinate units.
pub const SCALE: i64 = 10;

/// Gravity added to the vertical velocity each tick (0.8 pixels per tick).
pub const GRAVITY: i64 = 8;

/// Largest speed, per axis, of a freshly spawned ball (5 pixels per tick).
pub const SPAWN_SPEED: i64 = 50;

/// World width (800 pixels).
pub const WORLD_W: i64 = 8000;

/// World height (600 pixels).
pub const WORLD_H: i64 = 6000;

/// Radius, in fixed-point units, of the circle drawn for a ball (4 pixels).
pub const DRAW_RADIUS: i64 = 40;

/// Largest position magnitude, per axis, that the draw path accepts; its
/// pixel lies within the rasterizer's center range.
pub const MAX_COORD: i64 = 10000000000;

/// A fixed-point plane vector.
#[derive(Clone, Copy, PartialEq, Eq, Debug)]
pub struct Vec2 {
    pub x: i64,
    pub y: i64,
}

/// A color, one byte per channel.
#[derive(Clone, Copy, PartialEq, Eq, Debug)]
pub struct Rgb {
    pub r: u8,
    pub g: u8,
    pub b: u8,
}

/// One particle.
#[derive(Clone, Copy, PartialEq, Eq, Debug)]
pub struct Ball {
    pub pos: Vec2,
    pub vel: Vec2,
    pub color: Rgb,
}

/// The simulation world: fixed bounds and a growing list of balls.
pub struct World {
    pub size: Vec2,
    pub balls: Vec<Ball>,
}

/// Clamps a mathematical integer into the `i64` range.
pub open spec fn sat64(x: int) -> int {
    if x > i64::MAX as int {
        i64::MAX as int
    } else if x < i64::MIN as int {
        i64::MIN as int
    } else {
        x
    }
}

/// A ball whose velocity can be negated without leaving `i64`.
pub open spec fn wf_ball(b: Ball) -> bool {
    b.vel.x > i64::MIN && b.vel.y > i64::MIN
}

/// The boundary pass: an axis whose position is outside `[0, size]` has its
/// velocity sign flipped; position and color are untouched.
pub open spec fn reflected(b: Ball, size: Vec2) -> Ball {
    Ball {
        pos: b.pos,
        vel: Vec2 {
            x: if b.pos.x < 0 || b.pos.x > size.x {
                (-b.vel.x) as i64
            } else {
                b.vel.x
            },
            y: if b.pos.y < 0 || b.pos.y > size.y {
                (-b.vel.y) as i64
            } else {
                b.vel.y
            },
        },
        color: b.color,
    }
}

/// The integration pass: the pre-gravity velocity is added to the position,
/// then gravity is added to the vertical velocity. Sums that leave `i64`
/// saturate.
pub open spec fn integrated(b: Ball) -> Ball {
    Ball {
        pos: Vec2 { x: sat64(b.pos.x + b.vel.x) as i64, y: sat64(b.pos.y + b.vel.y) as i64 },
        vel: Vec2 { x: b.vel.x, y: sat64(b.vel.y + GRAVITY) as i64 },
        color: b.color,
    }
}

/// What one tick does to a ball that was already in the world.
pub open spec fn stepped(b: Ball, size: Vec2) -> Ball {
    integrated(reflected(b, size))
}

/// What holds of a ball freshly spawned into a world of the given size:
/// position inside `[0, size.x) x [0, size.y)`, speed per axis at most
/// `SPAWN_SPEED`.
pub open spec fn spawn_ok(b: Ball, size: Vec2) -> bool {
    &&& 0 <= b.pos.x < size.x
    &&& 0 <= b.pos.y < size.y
    &&& -SPAWN_SPEED <= b.vel.x <= SPAWN_SPEED
    &&& -SPAWN_SPEED <= b.vel.y <= SPAWN_SPEED
}

impl World {
    /// Positive bounds and every ball well formed.
    pub open spec fn wf(&self) -> bool {
        &&& 0 < self.size.x
        &&& 0 < self.size.y
        &&& forall|i: int| 0 <= i < self.balls@.len() ==> wf_ball(self.balls@[i])
    }
}

/// Adds two machine integers, saturating at the ends of the `i64` range.
fn sat_add(a: i64, b: i64) -> (r: i64)
    ensures
        r == sat64(a + b),
{
    match a.checked_add(b) {
        Some(s) => s,
        None => if b >= 0 {
            i64::MAX
        } else {
            i64::MIN
        },
    }
}

/// Relies on `rand::thread_rng` and `rand::Rng::gen_range`: the result of
/// sampling `0..n` lies in `[0, n)`.
#[verifier::external_body]
fn random_below(n: u64) -> (r: u64)
    requires
        1 <= n,
    ensures
        r < n,
{
    rand::Rng::gen_range(&mut rand::thread_rng(), 0..n)
}

/// Relies on `rand::thread_rng` and `rand::Rng::gen` to draw one byte; any
/// outcome is acceptable, so nothing is stated of the result.
#[verifier::external_body]
fn random_byte() -> u8 {
    rand::Rng::gen(&mut rand::thread_rng())
}

/// Relies on rayon's `par_iter_mut`/`for_each`: the closure runs exactly
/// once on each element, in place, and only calls the verified
/// `Ball::update_vel`, whose contract gives the element-wise result.
#[verifier::external_body]
fn par_update_vel(balls: &mut Vec<Ball>, size: Vec2)
    requires
        forall|i: int| 0 <= i < old(balls)@.len() ==> wf_ball(old(balls)@[i]),
    ensures
        final(balls)@.len() == old(balls)@.len(),
        forall|i: int|
            0 <= i < old(balls)@.len() ==> final(balls)@[i] == reflected(old(balls)@[i], size),
{
    balls.par_iter_mut().for_each(|ball| ball.update_vel(&size));
}

/// Relies on rayon's `par_iter_mut`/`for_each`: the closure runs exactly
/// once on each element, in place, and only calls the verified `Ball::tick`,
/// whose contract gives the element-wise result.
#[verifier::external_body]
fn par_tick(balls: &mut Vec<Ball>)
    ensures
        final(balls)@.len() == old(balls)@.len(),
        forall|i: int| 0 <= i < old(balls)@.len() ==> final(balls)@[i] == integrated(old(balls)@[i]),
{
    balls.par_iter_mut().for_each(|ball| ball.tick());
}

impl Ball {
    /// A ball at the given position with the given velocity; the color is
    /// drawn at random, one sample per channel.
    pub fn new(pos: Vec2, vel: Vec2) -> (b: Ball)
        ensures
            b.pos == pos,
            b.vel == vel,
    {
        Ball { pos, vel, color: Rgb { r: random_byte(), g: random_byte(), b: random_byte() } }
    }

    /// A ball spawned at a random position inside the world with a random
    /// velocity of at most `SPAWN_SPEED` per axis.
    pub fn random(size: Vec2) -> (b: Ball)
        requires
            0 < size.x,
            0 < size.y,
        ensures
            spawn_ok(b, size),
            wf_ball(b),
    {
        let px = random_below(size.x as u64) as i64;
        let py = random_below(size.y as u64) as i64;
        let vx = random_below((2 * SPAWN_SPEED + 1) as u64) as i64 - SPAWN_SPEED;
        let vy = random_below((2 * SPAWN_SPEED + 1) as u64) as i64 - SPAWN_SPEED;
        Self::new(Vec2 { x: px, y: py }, Vec2 { x: vx, y: vy })
    }

    /// The boundary pass on one ball.
    pub fn update_vel(&mut self, world: &Vec2)
        requires
            wf_ball(*old(self)),
        ensures
            *final(self) == reflected(*old(self), *world),
            wf_ball(*final(self)),
    {
        if self.pos.x < 0 || self.pos.x > world.x {
            self.vel.x = -self.vel.x;
        }
        if self.pos.y < 0 || self.pos.y > world.y {
            self.vel.y = -self.vel.y;
        }
    }

    /// The integration pass on one ball.
    pub fn tick(&mut self)
        ensures
            *final(self) == integrated(*old(self)),
            wf_ball(*old(self)) ==> wf_ball(*final(self)),
    {
        self.pos.x = sat_add(self.pos.x, self.vel.x);
        self.pos.y = sat_add(self.pos.y, self.vel.y);
        self.vel.y = sat_add(self.vel.y, GRAVITY);
    }
}

impl World {
    /// An empty 800 x 600 pixel world.
    pub fn new() -> (w: World)
        ensures
            w.size == (Vec2 { x: WORLD_W, y: WORLD_H }),
            w.balls@.len() == 0,
            w.wf(),
    {
        World { size: Vec2 { x: WORLD_W, y: WORLD_H }, balls: Vec::new() }
    }

    /// One simulation step: spawn one ball, then run the boundary pass and
    /// the integration pass over every ball, the new one included. The ball
    /// count always grows by exactly one.
    pub fn tick(&mut self)
        requires
            old(self).wf(),
        ensures
            final(self).wf(),
            final(self).size == old(self).size,
            final(self).balls@.len() == old(self).balls@.len() + 1,
            forall|i: int|
                0 <= i < old(self).balls@.len() ==> final(self).balls@[i] == stepped(
                    old(self).balls@[i],
                    old(self).size,
                ),
            exists|nb: Ball|
                #[trigger] spawn_ok(nb, old(self).size) && final(self).balls@.last() == stepped(
                    nb,
                    old(self).size,
                ),
    {
        let ghost pre = *self;
        let nb = Ball::random(self.size);
        self.balls.push(nb);
        par_update_vel(&mut self.balls, self.size);
        par_tick(&mut self.balls);
        proof {
            assert(self.balls@.last() == stepped(nb, pre.size));
            assert(spawn_ok(nb, pre.size));
        }
    }
}

/// The pixel a fixed-point coordinate lands on: division by `SCALE`,
/// rounded toward zero.
pub open spec fn pixel_of(v: int) -> int {
    if v >= 0 {
        v / (SCALE as int)
    } else {
        -((-v) / (SCALE as int))
    }
}

/// A ball whose position the draw path accepts.
pub open spec fn drawable(b: Ball) -> bool {
    -MAX_COORD <= b.pos.x <= MAX_COORD && -MAX_COORD <= b.pos.y <= MAX_COORD
}

/// The batch that drawing a ball must produce: the ball's color, and
/// exactly the pixels of the `DRAW_RADIUS` disk around the ball's pixel
/// position, each once.
pub open spec fn ball_batch_ok(b: Ball, batch: DrawBatch) -> bool {
    &&& batch.color == b.color
    &&& batch.points@.no_duplicates()
    &&& forall|k: int|
        0 <= k < batch.points@.len() ==> {
            let p = #[trigger] batch.points@[k];
            in_disk(p.0 - pixel_of(b.pos.x as int), p.1 - pixel_of(b.pos.y as int), DRAW_RADIUS as int)
        }
    &&& forall|p: (i32, i32)|
        in_disk(p.0 - pixel_of(b.pos.x as int), p.1 - pixel_of(b.pos.y as int), DRAW_RADIUS as int)
            ==> #[trigger] batch.points@.contains(p)
}

/// Whether the draw path accepts this ball's position: the runtime twin of
/// `drawable`, for callers that cannot prove it.
pub fn drawable_check(b: &Ball) -> (r: bool)
    ensures
        r == drawable(*b),
{
    -MAX_COORD <= b.pos.x && b.pos.x <= MAX_COORD && -MAX_COORD <= b.pos.y && b.pos.y <= MAX_COORD
}

/// Converts a fixed-point coordinate to its pixel.
fn to_pixel(v: i64) -> (r: i32)
    requires
        -MAX_COORD <= v <= MAX_COORD,
    ensures
        r == pixel_of(v as int),
        -MAX_CENTER <= r <= MAX_CENTER,
{
    if v >= 0 {
        let q: u64 = (v as u64) / (SCALE as u64);
        proof {
            assert(0 <= (v as int) / (SCALE as int) <= 1000000000) by (nonlinear_arith)
                requires
                    0 <= v as int <= 10000000000,
            ;
        }
        q as i32
    } else {
        let q: u64 = ((-v) as u64) / (SCALE as u64);
        proof {
            assert(0 <= (-(v as int)) / (SCALE as int) <= 1000000000) by (nonlinear_arith)
                requires
                    0 < -(v as int) <= 10000000000,
            ;
        }
        -(q as i32)
    }
}

impl Ball {
    /// The batch of pixels that paints this ball: a filled circle of
    /// `DRAW_RADIUS` around the ball's pixel position, in the ball's color.
    pub fn draw(&self) -> (batch: DrawBatch)
        requires
            drawable(*self),
        ensures
            ball_batch_ok(*self, batch),
    {
        draw_circle(self.color, (to_pixel(self.pos.x), to_pixel(self.pos.y)), DRAW_RADIUS)
    }
}

impl World {
    /// One draw batch per ball, in ball order.
    pub fn draw(&self) -> (batches: Vec<DrawBatch>)
        requires
            forall|i: int| 0 <= i < self.balls@.len() ==> drawable(#[trigger] self.balls@[i]),
        ensures
            batches@.len() == self.balls@.len(),
            forall|i: int|
                0 <= i < batches@.len() ==> ball_batch_ok(self.balls@[i], #[trigger] batches@[i]),
    {
        let mut batches: Vec<DrawBatch> = Vec::new();
        let mut i: usize = 0;
        while i < self.balls.len()
            invariant
                i <= self.balls@.len(),
                batches@.len() == i,
                forall|j: int| 0 <= j < self.balls@.len() ==> drawable(#[trigger] self.balls@[j]),
                forall|j: int|
                    0 <= j < i ==> ball_batch_ok(self.balls@[j], #[trigger] batches@[j]),
            decreases self.balls@.len() - i,
        {
            batches.push(self.balls[i].draw());
            i = i + 1;
        }
        batches
    }
}

/// The boundary pass flips the velocity sign exactly on the axes whose
/// position lies outside the world, and moves nothing.
pub proof fn lemma_reflection_flips_sign(b: Ball, size: Vec2)
    requires
        wf_ball(b),
    ensures
        (b.pos.x < 0 || b.pos.x > size.x) ==> reflected(b, size).vel.x == -b.vel.x,
        !(b.pos.x < 0 || b.pos.x > size.x) ==> reflected(b, size).vel.x == b.vel.x,
        (b.pos.y < 0 || b.pos.y > size.y) ==> reflected(b, size).vel.y == -b.vel.y,
        !(b.pos.y < 0 || b.pos.y > size.y) ==> reflected(b, size).vel.y == b.vel.y,
        reflected(b, size).pos == b.pos,
{
}

/// The integration pass adds the pre-gravity velocity to the position and
/// only then adds gravity to the vertical velocity, whenever the sums stay
/// inside `i64`.
pub proof fn lemma_integration_order(b: Ball)
    requires
        i64::MIN <= b.pos.x + b.vel.x <= i64::MAX,
        i64::MIN <= b.pos.y + b.vel.y <= i64::MAX,
        i64::MIN <= b.vel.y + GRAVITY <= i64::MAX,
    ensures
        integrated(b).pos.x == b.pos.x + b.vel.x,
        integrated(b).pos.y == b.pos.y + b.vel.y,
        integrated(b).vel.x == b.vel.x,
        integrated(b).vel.y == b.vel.y + GRAVITY,
        integrated(b).color == b.color,
{
}

} // verus!
