//! One-shot procedural terrain: a height field sampled at a fixed step
//! across the normalized domain becomes an ordered boundary polyline, the
//! open collision shape, and a closed renderable surface outline.

use vstd::prelude::*;
use vstd::arithmetic::mul::*;
use vstd::arithmetic::div_mod::*;
use crate::MICRO;
use crate::controller::Vec2Fixed;

verus! {

/// Largest domain width, in units, that the fixed-point terrain arithmetic
/// accepts.
pub const WIDTH_LIMIT: i64 = 9_000_000_000_000;

/// Largest domain half-height, in units, that the fixed-point terrain
/// arithmetic accepts.
pub const HEIGHT_LIMIT: i64 = 1_000_000_000;

/// Largest magnitude of a height sample, in micro-units. Noise samples lie
/// in roughly [-1, 1]; this leaves generous slack.
pub const SAMPLE_LIMIT: i64 = 1_000_000_000;

/// Number of samples taken at step `step` across the normalized domain:
/// one at every multiple of the step that is at most one, so
/// `floor(1 / step) + 1` including the sample at zero.
pub open spec fn sample_count(step: u64) -> int {
    MICRO as int / step as int + 1
}

/// The terrain, generated once at startup and immutable thereafter. The
/// boundary points run left to right with strictly increasing x; the
/// renderable surface outline is the same points plus one closing point at
/// the domain's bottom-right corner. Coordinates are world micro-units.
pub struct Terrain {
    pub boundary_points: Vec<Vec2Fixed>,
    pub surface_points: Vec<Vec2Fixed>,
}

impl Terrain {
    /// The physics collision shape: an open polyline through exactly the
    /// sampled boundary points, without the surface's closing point.
    pub fn collision_polyline(&self) -> (r: &Vec<Vec2Fixed>)
        ensures
            r@ == self.boundary_points@,
    {
        &self.boundary_points
    }
}

/// Builds the terrain from a height field: sample `i` of `heights` is the
/// noise value at normalized coordinate `i * step`, in micro-units. Sample
/// `i` maps to the world-space point `(i * step * width,
/// heights[i] * half_height + half_height)`; after the last sample one
/// closing point at `(width, 0)` drops the renderable surface to the
/// domain's bottom-right corner. The closing point is not part of the
/// collision boundary.
pub fn build_terrain(width: i64, half_height: i64, step: u64, heights: &Vec<i64>) -> (t: Terrain)
    requires
        1 <= step <= MICRO,
        1 <= width <= WIDTH_LIMIT,
        1 <= half_height <= HEIGHT_LIMIT,
        heights@.len() == sample_count(step),
        forall|i: int|
            0 <= i < heights@.len() ==> -SAMPLE_LIMIT <= #[trigger] heights@[i] <= SAMPLE_LIMIT,
    ensures
        t.boundary_points@.len() == sample_count(step),
        forall|i: int|
            0 <= i < t.boundary_points@.len() ==> {
                let pt = #[trigger] t.boundary_points@[i];
                &&& pt.x == i * step * width
                &&& pt.y == heights@[i] * half_height + half_height * MICRO
            },
        forall|i: int|
            0 <= i < t.boundary_points@.len() - 1 ==> (#[trigger] t.boundary_points@[i]).x
                < t.boundary_points@[i + 1].x,
        t.surface_points@.len() == t.boundary_points@.len() + 1,
        forall|i: int|
            0 <= i < t.boundary_points@.len() ==> #[trigger] t.surface_points@[i]
                == t.boundary_points@[i],
        t.surface_points@.last().x == width * MICRO,
        t.surface_points@.last().y == 0,
{
    proof {
        lemma_div_is_ordered_by_denominator(MICRO as int, 1, step as int);
    }
    let count: u64 = MICRO / step + 1;
    let n: usize = count as usize;
    let mut boundary: Vec<Vec2Fixed> = Vec::new();
    let mut i: usize = 0;
    while i < n
        invariant
            0 <= i <= n,
            n == sample_count(step),
            boundary@.len() == i,
            1 <= step <= MICRO,
            1 <= width <= WIDTH_LIMIT,
            1 <= half_height <= HEIGHT_LIMIT,
            heights@.len() == sample_count(step),
            forall|k: int|
                0 <= k < heights@.len() ==> -SAMPLE_LIMIT <= #[trigger] heights@[k]
                    <= SAMPLE_LIMIT,
            forall|k: int|
                0 <= k < i ==> {
                    let pt = #[trigger] boundary@[k];
                    &&& pt.x == k * step * width
                    &&& pt.y == heights@[k] * half_height + half_height * MICRO
                },
        decreases n - i,
    {
        proof {
            lemma_fundamental_div_mod(MICRO as int, step as int);
            lemma_mod_bound(MICRO as int, step as int);
            lemma_mul_inequality(i as int, MICRO as int / step as int, step as int);
            assert((MICRO as int / step as int) * step == step * (MICRO as int
                / step as int)) by (nonlinear_arith);
            assert((i * step) * width <= 1_000_000 * WIDTH_LIMIT) by (nonlinear_arith)
                requires
                    0 <= i * step <= 1_000_000,
                    1 <= width <= WIDTH_LIMIT,
            ;
            assert(0 <= (i * step) * width) by (nonlinear_arith)
                requires
                    0 <= i * step,
                    1 <= width,
            ;
            assert(-1_000_000_000_000_000_000 <= heights@[i as int] * half_height
                <= 1_000_000_000_000_000_000) by (nonlinear_arith)
                requires
                    -SAMPLE_LIMIT <= heights@[i as int] <= SAMPLE_LIMIT,
                    1 <= half_height <= HEIGHT_LIMIT,
            ;
        }
        let x_norm: u64 = (i as u64) * step;
        let xi: i64 = (x_norm as i64) * width;
        let h: i64 = heights[i];
        let yi: i64 = h * half_height + half_height * 1_000_000;
        boundary.push(Vec2Fixed { x: xi, y: yi });
        i = i + 1;
    }
    let mut surface: Vec<Vec2Fixed> = Vec::new();
    let mut j: usize = 0;
    while j < n
        invariant
            0 <= j <= n,
            boundary@.len() == n,
            surface@.len() == j,
            forall|k: int| 0 <= k < j ==> #[trigger] surface@[k] == boundary@[k],
        decreases n - j,
    {
        let pt = boundary[j];
        surface.push(pt);
        j = j + 1;
    }
    let closing = Vec2Fixed { x: width * 1_000_000, y: 0 };
    surface.push(closing);
    proof {
        assert forall|i2: int| 0 <= i2 < boundary@.len() - 1 implies (
        #[trigger] boundary@[i2]).x < boundary@[i2 + 1].x by {
            assert(((i2 + 1) * step) * width - (i2 * step) * width >= step
                * width) by (nonlinear_arith)
                requires
                    i2 >= 0,
                    step >= 1,
                    width >= 1,
            ;
            assert(step * width >= 1) by (nonlinear_arith)
                requires
                    step >= 1,
                    width >= 1,
            ;
        }
    }
    Terrain { boundary_points: boundary, surface_points: surface }
}

} // verus!
