//! Software rasterizer for filled circles.
//!
//! A circle of fixed-point radius `r` around an integer center covers the
//! pixel offsets `(dx, dy)` with `dx, dy` in `[-ceil(r), ceil(r))` and
//! `dx*dx + dy*dy < floor(r*r)`, both bounds taken in whole pixels. The
//! rasterizer produces exactly those offsets, translated by the center, as
//! one batch with one color.

use vstd::prelude::*;
use crate::world::Rgb;
use crate::world::SCALE;

verus! {

/// Largest fixed-point radius the rasterizer accepts (10000 pixels).
pub const MAX_RADIUS: i64 = 100000;

/// Largest center magnitude the rasterizer accepts, per axis; keeps every
/// translated point inside `i32`.
pub const MAX_CENTER: i32 = 1000000000;

/// One batched draw: a color and the pixels to paint with it.
pub struct DrawBatch {
    pub color: Rgb,
    pub points: Vec<(i32, i32)>,
}

/// The circle's pixel half-width: the radius in whole pixels, rounded up.
pub open spec fn radius_ceil(radius: int) -> int {
    (radius + SCALE - 1) / (SCALE as int)
}

/// The squared radius in whole pixels, rounded down.
pub open spec fn radius_sq(radius: int) -> int {
    (radius * radius) / ((SCALE * SCALE) as int)
}

/// Whether the pixel offset `(dx, dy)` lies in the rasterized disk of the
/// given fixed-point radius.
pub open spec fn in_disk(dx: int, dy: int, radius: int) -> bool {
    &&& -radius_ceil(radius) <= dx < radius_ceil(radius)
    &&& -radius_ceil(radius) <= dy < radius_ceil(radius)
    &&& dx * dx + dy * dy < radius_sq(radius)
}

/// Every point of `points` is a disk point strictly before the scan position
/// `(dx_done, dy_done)` in row-major order.
spec fn sound_upto(
    points: Seq<(i32, i32)>,
    center: (i32, i32),
    radius: int,
    dy_done: int,
    dx_done: int,
) -> bool {
    forall|k: int|
        0 <= k < points.len() ==> {
            let p = #[trigger] points[k];
            &&& in_disk(p.0 - center.0, p.1 - center.1, radius)
            &&& (p.1 - center.1 < dy_done || (p.1 - center.1 == dy_done && p.0 - center.0
                < dx_done))
        }
}

/// Every disk point strictly before the scan position `(dx_done, dy_done)`
/// in row-major order is in `points`.
spec fn covers_upto(
    points: Seq<(i32, i32)>,
    center: (i32, i32),
    radius: int,
    dy_done: int,
    dx_done: int,
) -> bool {
    forall|p: (i32, i32)|
        (in_disk(p.0 - center.0, p.1 - center.1, radius) && (p.1 - center.1 < dy_done || (p.1
            - center.1 == dy_done && p.0 - center.0 < dx_done))) ==> #[trigger] points.contains(p)
}

/// Squares a bounded coordinate without overflow.
fn sq(v: i64) -> (r: i64)
    requires
        -MAX_RADIUS <= v <= MAX_RADIUS,
    ensures
        r == v * v,
        0 <= r <= 10000000000,
{
    proof {
        assert(0 <= v * v <= 100000 * 100000) by (nonlinear_arith)
            requires
                -100000 <= v <= 100000,
        ;
    }
    v * v
}

/// Rasterizes a filled circle: the batch holds the given color and exactly
/// the pixels whose offset from `center` lies in the disk of the given
/// fixed-point radius, each pixel once.
pub fn draw_circle(color: Rgb, center: (i32, i32), radius: i64) -> (batch: DrawBatch)
    requires
        0 <= radius <= MAX_RADIUS,
        -MAX_CENTER <= center.0 <= MAX_CENTER,
        -MAX_CENTER <= center.1 <= MAX_CENTER,
    ensures
        batch.color == color,
        batch.points@.no_duplicates(),
        forall|k: int|
            0 <= k < batch.points@.len() ==> {
                let p = #[trigger] batch.points@[k];
                in_disk(p.0 - center.0, p.1 - center.1, radius as int)
            },
        forall|p: (i32, i32)|
            in_disk(p.0 - center.0, p.1 - center.1, radius as int) ==> #[trigger] batch.points@.contains(
                p,
            ),
{
    let rc: i64 = (((radius + SCALE - 1) as u64) / (SCALE as u64)) as i64;
    proof {
        assert(0 <= (radius as int) * (radius as int) <= 100000 * 100000) by (nonlinear_arith)
            requires
                0 <= radius as int <= 100000,
        ;
    }
    let rsq: i64 = (((radius as u64) * (radius as u64)) / ((SCALE * SCALE) as u64)) as i64;
    proof {
        assert(rc == radius_ceil(radius as int));
        assert(rsq == radius_sq(radius as int));
        assert(0 <= (radius as int + SCALE - 1) / (SCALE as int) <= 10001) by (nonlinear_arith)
            requires
                0 <= radius as int <= 100000,
        ;
        assert(0 <= rc <= 10001);
    }
    let cx: i64 = center.0 as i64;
    let cy: i64 = center.1 as i64;
    let mut points: Vec<(i32, i32)> = Vec::new();
    let mut dy: i64 = -rc;
    while dy < rc
        invariant
            -rc <= dy <= rc,
            0 <= rc <= 10001,
            rc == radius_ceil(radius as int),
            rsq == radius_sq(radius as int),
            0 <= radius <= MAX_RADIUS,
            cx == center.0 as int,
            cy == center.1 as int,
            -MAX_CENTER <= center.0 <= MAX_CENTER,
            -MAX_CENTER <= center.1 <= MAX_CENTER,
            points@.no_duplicates(),
            sound_upto(points@, center, radius as int, dy as int, -rc as int),
            covers_upto(points@, center, radius as int, dy as int, -rc as int),
        decreases rc - dy,
    {
        let mut dx: i64 = -rc;
        while dx < rc
            invariant
                -rc <= dx <= rc,
                -rc <= dy < rc,
                0 <= rc <= 10001,
                rc == radius_ceil(radius as int),
                rsq == radius_sq(radius as int),
                0 <= radius <= MAX_RADIUS,
                cx == center.0 as int,
                cy == center.1 as int,
                -MAX_CENTER <= center.0 <= MAX_CENTER,
                -MAX_CENTER <= center.1 <= MAX_CENTER,
                points@.no_duplicates(),
                sound_upto(points@, center, radius as int, dy as int, dx as int),
                covers_upto(points@, center, radius as int, dy as int, dx as int),
            decreases rc - dx,
        {
            if sq(dx) + sq(dy) < rsq {
                let p: (i32, i32) = ((cx + dx) as i32, (cy + dy) as i32);
                proof {
                    assert(p.0 - center.0 == dx as int && p.1 - center.1 == dy as int);
                    assert(in_disk(dx as int, dy as int, radius as int));
                    if points@.contains(p) {
                        let k = choose|k: int| 0 <= k < points@.len() && points@[k] == p;
                        assert(false);
                    }
                    assert(!points@.contains(p));
                }
                let ghost old_points = points@;
                points.push(p);
                proof {
                    assert forall|i: int, j: int|
                        0 <= i < points@.len() && 0 <= j < points@.len() && i != j implies points@[i]
                        != points@[j] by {
                        if i < old_points.len() && j < old_points.len() {
                            assert(points@[i] == old_points[i] && points@[j] == old_points[j]);
                        } else if i == old_points.len() {
                            assert(points@[i] == p && points@[j] == old_points[j]);
                            assert(old_points.contains(old_points[j]));
                        } else {
                            assert(points@[j] == p && points@[i] == old_points[i]);
                            assert(old_points.contains(old_points[i]));
                        }
                    }
                    assert(points@.no_duplicates());
                    assert forall|q: (i32, i32)|
                        (in_disk(q.0 - center.0, q.1 - center.1, radius as int) && (q.1 - center.1
                            < dy as int || (q.1 - center.1 == dy as int && q.0 - center.0 < dx + 1)))
                            implies #[trigger] points@.contains(q) by {
                        if q.1 - center.1 == dy as int && q.0 - center.0 == dx as int {
                            assert(q == p);
                            assert(points@[points@.len() - 1] == q);
                        } else {
                            assert(old_points.contains(q));
                            let k = choose|k: int| 0 <= k < old_points.len() && old_points[k] == q;
                            assert(points@[k] == q);
                        }
                    }
                }
            } else {
                proof {
                    assert forall|q: (i32, i32)|
                        (in_disk(q.0 - center.0, q.1 - center.1, radius as int) && (q.1 - center.1
                            < dy as int || (q.1 - center.1 == dy as int && q.0 - center.0 < dx + 1)))
                            implies #[trigger] points@.contains(q) by {
                        if q.1 - center.1 == dy as int && q.0 - center.0 == dx as int {
                            assert(false);
                        }
                    }
                }
            }
            dx = dx + 1;
        }
        dy = dy + 1;
    }
    DrawBatch { color, points }
}

} // verus!
