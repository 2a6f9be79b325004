use vstd::prelude::*;
use crate::fx::{tdiv, abs_spec, min_spec, max_spec, clamp_spec, floor_div, ceil_div, isqrt_u64, clamp_i64, lemma_tdiv_bound, FX, FX_HALF, COORD_LIMIT};
use crate::geometry::{Vec2Fx, Vec3Fx, Vertex, Fragment};
use vstd::arithmetic::div_mod::lemma_div_is_ordered;

verus! {

/// Triangles whose doubled screen-space area is below this are degenerate
/// and rasterize to nothing: a tenth of a pixel's area, in fixed-point
/// area units (`FX * FX / 10`).
pub const AREA_EPS: i64 = 6553;

/// Edge function: the signed doubled area of the triangle `(a, b, p)`,
/// positive when `p` lies to one side of the directed line `a -> b` and
/// negative on the other.
pub open spec fn edge_fn(ax: int, ay: int, bx: int, by: int, px: int, py: int) -> int {
    (px - ax) * (by - ay) - (py - ay) * (bx - ax)
}

/// The three edge values at any point sum to the triangle's own edge
/// value: the algebraic identity behind barycentric weights summing to 1.
pub proof fn lemma_edge_sum(ax: int, ay: int, bx: int, by: int, cx: int, cy: int, px: int, py: int)
    ensures
        edge_fn(bx, by, cx, cy, px, py) + edge_fn(cx, cy, ax, ay, px, py) + edge_fn(
            ax,
            ay,
            bx,
            by,
            px,
            py,
        ) == edge_fn(ax, ay, bx, by, cx, cy),
{
    assert((px - bx) * (cy - by) == px * cy - px * by - bx * cy + bx * by) by (nonlinear_arith);
    assert((py - by) * (cx - bx) == py * cx - py * bx - by * cx + bx * by) by (nonlinear_arith);
    assert((px - cx) * (ay - cy) == px * ay - px * cy - ay * cx + cx * cy) by (nonlinear_arith);
    assert((py - cy) * (ax - cx) == py * ax - py * cx - ax * cy + cx * cy) by (nonlinear_arith);
    assert((px - ax) * (by - ay) == px * by - px * ay - ax * by + ax * ay) by (nonlinear_arith);
    assert((py - ay) * (bx - ax) == py * bx - py * ax - ay * bx + ax * ay) by (nonlinear_arith);
    assert((cx - ax) * (by - ay) == by * cx - ay * cx - ax * by + ax * ay) by (nonlinear_arith);
    assert((cy - ay) * (bx - ax) == bx * cy - ax * cy - ay * bx + ax * ay) by (nonlinear_arith);
}

/// Signed doubled area of a triangle's screen-space projection.
pub open spec fn tri_area(v1: Vertex, v2: Vertex, v3: Vertex) -> int {
    let a = v1.transformed_position;
    let b = v2.transformed_position;
    let c = v3.transformed_position;
    edge_fn(a.x as int, a.y as int, b.x as int, b.y as int, c.x as int, c.y as int)
}

/// The fixed-point coordinate of the center of pixel `p`.
pub open spec fn pix_center(p: int) -> int {
    p * FX + FX_HALF
}

/// Raw edge value of the directed edge `a -> b` at the center of pixel
/// `(px, py)`.
pub open spec fn edge_at(a: Vec3Fx, b: Vec3Fx, px: int, py: int) -> int {
    edge_fn(a.x as int, a.y as int, b.x as int, b.y as int, pix_center(px), pix_center(py))
}

/// Unnormalized barycentric weight of `v1` at a pixel center, with the
/// sign flipped for clockwise triangles so that it is non-negative inside.
/// Dividing by `abs(tri_area)` gives the rational weight in [0, 1].
pub open spec fn weight1(v1: Vertex, v2: Vertex, v3: Vertex, px: int, py: int) -> int {
    let e = edge_at(v2.transformed_position, v3.transformed_position, px, py);
    if tri_area(v1, v2, v3) >= 0 {
        e
    } else {
        -e
    }
}

/// Unnormalized barycentric weight of `v2` at a pixel center.
pub open spec fn weight2(v1: Vertex, v2: Vertex, v3: Vertex, px: int, py: int) -> int {
    let e = edge_at(v3.transformed_position, v1.transformed_position, px, py);
    if tri_area(v1, v2, v3) >= 0 {
        e
    } else {
        -e
    }
}

/// Unnormalized barycentric weight of `v3` at a pixel center.
pub open spec fn weight3(v1: Vertex, v2: Vertex, v3: Vertex, px: int, py: int) -> int {
    let e = edge_at(v1.transformed_position, v2.transformed_position, px, py);
    if tri_area(v1, v2, v3) >= 0 {
        e
    } else {
        -e
    }
}

/// A pixel's sample center is covered by the triangle iff all three
/// barycentric weights are non-negative (edges owned inclusively).
pub open spec fn inside_pixel(v1: Vertex, v2: Vertex, v3: Vertex, px: int, py: int) -> bool {
    &&& weight1(v1, v2, v3, px, py) >= 0
    &&& weight2(v1, v2, v3, px, py) >= 0
    &&& weight3(v1, v2, v3, px, py) >= 0
}

/// The coarse separating-axis rejection: every vertex beyond the same
/// viewport edge on one axis.
pub open spec fn culled(v1: Vertex, v2: Vertex, v3: Vertex, vw: int, vh: int) -> bool {
    let a = v1.transformed_position;
    let b = v2.transformed_position;
    let c = v3.transformed_position;
    ||| (a.x < 0 && b.x < 0 && c.x < 0)
    ||| (a.x > vw * FX && b.x > vw * FX && c.x > vw * FX)
    ||| (a.y < 0 && b.y < 0 && c.y < 0)
    ||| (a.y > vh * FX && b.y > vh * FX && c.y > vh * FX)
}

/// Perspective-free barycentric interpolation: the weighted average of the
/// three vertex attributes, truncated.
pub open spec fn interp(q1: int, q2: int, q3: int, w1: int, w2: int, w3: int, area: int) -> int {
    tdiv(q1 * w1 + q2 * w2 + q3 * w3, area)
}

/// `s` is the integer square root of `n`.
pub open spec fn is_isqrt(n: int, s: int) -> bool {
    &&& 0 <= s
    &&& s * s <= n
    &&& n < (s + 1) * (s + 1)
}

/// Leftmost pixel column the triangle's bounding box can touch.
pub open spec fn bbox_min_x(v1: Vertex, v2: Vertex, v3: Vertex) -> int {
    min_spec(
        min_spec(v1.transformed_position.x as int, v2.transformed_position.x as int),
        v3.transformed_position.x as int,
    ) / (FX as int)
}

pub open spec fn bbox_min_y(v1: Vertex, v2: Vertex, v3: Vertex) -> int {
    min_spec(
        min_spec(v1.transformed_position.y as int, v2.transformed_position.y as int),
        v3.transformed_position.y as int,
    ) / (FX as int)
}

pub open spec fn bbox_max_x(v1: Vertex, v2: Vertex, v3: Vertex) -> int {
    (max_spec(
        max_spec(v1.transformed_position.x as int, v2.transformed_position.x as int),
        v3.transformed_position.x as int,
    ) + FX - 1) / (FX as int)
}

pub open spec fn bbox_max_y(v1: Vertex, v2: Vertex, v3: Vertex) -> int {
    (max_spec(
        max_spec(v1.transformed_position.y as int, v2.transformed_position.y as int),
        v3.transformed_position.y as int,
    ) + FX - 1) / (FX as int)
}

/// The fragment's normal is the interpolated normal renormalized to unit
/// length through the integer square root of its squared magnitude, and
/// the intensity is the normal's z-component (the fixed light direction is
/// +z) clamped into [0, FX]. A zero interpolated normal yields a zero
/// normal and zero intensity.
pub open spec fn normal_matches(rnx: int, rny: int, rnz: int, normal: Vec3Fx, intensity: int) -> bool {
    exists|s: int|
        {
            &&& #[trigger] is_isqrt(rnx * rnx + rny * rny + rnz * rnz, s)
            &&& if s == 0 {
                normal == (Vec3Fx { x: 0i64, y: 0i64, z: 0i64 }) && intensity == 0
            } else {
                &&& normal.x == tdiv(rnx * FX, s)
                &&& normal.y == tdiv(rny * FX, s)
                &&& normal.z == tdiv(rnz * FX, s)
                &&& intensity == clamp_spec(tdiv(rnz * FX, s), 0, FX as int)
            }
        }
}

/// Everything `triangle` promises of one emitted fragment: its pixel is
/// covered, and every attribute is the barycentric interpolation of the
/// three vertices at that pixel's center (the world position mixes the
/// vertices' world-space `position` fields, the normal is renormalized
/// through the integer square root, the intensity is its non-negative
/// z-component).
pub open spec fn fragment_matches(f: Fragment, v1: Vertex, v2: Vertex, v3: Vertex) -> bool {
    let px = f.x as int;
    let py = f.y as int;
    let area = abs_spec(tri_area(v1, v2, v3));
    let w1 = weight1(v1, v2, v3, px, py);
    let w2 = weight2(v1, v2, v3, px, py);
    let w3 = weight3(v1, v2, v3, px, py);
    let t1 = v1.transformed_position;
    let t2 = v2.transformed_position;
    let t3 = v3.transformed_position;
    let rnx = interp(
        v1.transformed_normal.x as int,
        v2.transformed_normal.x as int,
        v3.transformed_normal.x as int,
        w1,
        w2,
        w3,
        area,
    );
    let rny = interp(
        v1.transformed_normal.y as int,
        v2.transformed_normal.y as int,
        v3.transformed_normal.y as int,
        w1,
        w2,
        w3,
        area,
    );
    let rnz = interp(
        v1.transformed_normal.z as int,
        v2.transformed_normal.z as int,
        v3.transformed_normal.z as int,
        w1,
        w2,
        w3,
        area,
    );
    &&& inside_pixel(v1, v2, v3, px, py)
    &&& bbox_min_x(v1, v2, v3) <= px <= bbox_max_x(v1, v2, v3)
    &&& bbox_min_y(v1, v2, v3) <= py <= bbox_max_y(v1, v2, v3)
    &&& f.color == v1.color
    &&& f.depth == interp(t1.z as int, t2.z as int, t3.z as int, w1, w2, w3, area)
    &&& f.world_pos.x == interp(
        v1.position.x as int,
        v2.position.x as int,
        v3.position.x as int,
        w1,
        w2,
        w3,
        area,
    )
    &&& f.world_pos.y == interp(
        v1.position.y as int,
        v2.position.y as int,
        v3.position.y as int,
        w1,
        w2,
        w3,
        area,
    )
    &&& f.world_pos.z == interp(
        v1.position.z as int,
        v2.position.z as int,
        v3.position.z as int,
        w1,
        w2,
        w3,
        area,
    )
    &&& f.tex_coords == Some(
        Vec2Fx {
            x: interp(
                v1.tex_coords.x as int,
                v2.tex_coords.x as int,
                v3.tex_coords.x as int,
                w1,
                w2,
                w3,
                area,
            ) as i64,
            y: interp(
                v1.tex_coords.y as int,
                v2.tex_coords.y as int,
                v3.tex_coords.y as int,
                w1,
                w2,
                w3,
                area,
            ) as i64,
        },
    )
    &&& normal_matches(rnx, rny, rnz, f.normal, f.intensity as int)
    &&& f.intensity_in_range()
}

/// All three barycentric weights of a covered point lie in [0, 1] (each
/// raw weight between 0 and the doubled area) and they sum exactly to 1
/// (the raw weights sum to the doubled area).
pub proof fn lemma_barycentric_weights(v1: Vertex, v2: Vertex, v3: Vertex, px: int, py: int)
    requires
        tri_area(v1, v2, v3) != 0,
        inside_pixel(v1, v2, v3, px, py),
    ensures
        weight1(v1, v2, v3, px, py) + weight2(v1, v2, v3, px, py) + weight3(v1, v2, v3, px, py)
            == abs_spec(tri_area(v1, v2, v3)),
        0 <= weight1(v1, v2, v3, px, py) <= abs_spec(tri_area(v1, v2, v3)),
        0 <= weight2(v1, v2, v3, px, py) <= abs_spec(tri_area(v1, v2, v3)),
        0 <= weight3(v1, v2, v3, px, py) <= abs_spec(tri_area(v1, v2, v3)),
{
    let a = v1.transformed_position;
    let b = v2.transformed_position;
    let c = v3.transformed_position;
    lemma_edge_sum(
        a.x as int,
        a.y as int,
        b.x as int,
        b.y as int,
        c.x as int,
        c.y as int,
        pix_center(px),
        pix_center(py),
    );
}

/// A weighted average of values bounded by `lim` is bounded by `lim`.
pub proof fn lemma_interp_in_range(
    q1: int,
    q2: int,
    q3: int,
    w1: int,
    w2: int,
    w3: int,
    area: int,
    lim: int,
)
    requires
        area > 0,
        w1 >= 0,
        w2 >= 0,
        w3 >= 0,
        w1 + w2 + w3 == area,
        0 <= lim,
        -lim <= q1 <= lim,
        -lim <= q2 <= lim,
        -lim <= q3 <= lim,
    ensures
        -(lim * area) <= q1 * w1 + q2 * w2 + q3 * w3 <= lim * area,
        -lim <= interp(q1, q2, q3, w1, w2, w3, area) <= lim,
{
    assert(-(lim * area) <= q1 * w1 + q2 * w2 + q3 * w3 <= lim * area) by (nonlinear_arith)
        requires
            w1 >= 0,
            w2 >= 0,
            w3 >= 0,
            w1 + w2 + w3 == area,
            -lim <= q1 <= lim,
            -lim <= q2 <= lim,
            -lim <= q3 <= lim,
    ;
    lemma_tdiv_bound(q1 * w1 + q2 * w2 + q3 * w3, area, lim);
}

/// The barycentric average of one attribute across the three vertices,
/// computed exactly in 128-bit intermediates.
fn interp_attr(q1: i64, q2: i64, q3: i64, w1: i64, w2: i64, w3: i64, area: i64) -> (r: i64)
    requires
        area > 0,
        w1 >= 0,
        w2 >= 0,
        w3 >= 0,
        w1 + w2 + w3 == area,
        -COORD_LIMIT <= q1 <= COORD_LIMIT,
        -COORD_LIMIT <= q2 <= COORD_LIMIT,
        -COORD_LIMIT <= q3 <= COORD_LIMIT,
    ensures
        r == interp(q1 as int, q2 as int, q3 as int, w1 as int, w2 as int, w3 as int, area as int),
        -COORD_LIMIT <= r <= COORD_LIMIT,
{
    proof {
        lemma_interp_in_range(
            q1 as int,
            q2 as int,
            q3 as int,
            w1 as int,
            w2 as int,
            w3 as int,
            area as int,
            COORD_LIMIT as int,
        );
        assert((COORD_LIMIT as int) * (area as int) < 0x1000_0000_0000_0000_0000_0000)
            by (nonlinear_arith)
            requires
                0 < area < 0x8000_0000_0000_0000,
        ;
        assert forall|q: int, w: int|
            -COORD_LIMIT <= q <= COORD_LIMIT && 0 <= w < 0x8000_0000_0000_0000 implies -0x1000_0000_0000_0000_0000_0000 <= #[trigger] (q * w)
            <= 0x1000_0000_0000_0000_0000_0000 by {
            assert(-0x1000_0000_0000_0000_0000_0000 <= q * w <= 0x1000_0000_0000_0000_0000_0000)
                by (nonlinear_arith)
                requires
                    -0x400_0000 <= q <= 0x400_0000,
                    0 <= w < 0x8000_0000_0000_0000,
            ;
        }
    }
    let s: i128 = (q1 as i128) * (w1 as i128) + (q2 as i128) * (w2 as i128) + (q3 as i128) * (
    w3 as i128);
    let v: i128 = s / (area as i128);
    v as i64
}

/// The edge function of `a -> b` evaluated at `c`, exactly as `edge_fn`
/// states it. The coordinate bound keeps each product inside `i64`.
pub fn edge_function(a: &Vec3Fx, b: &Vec3Fx, c: &Vec3Fx) -> (e: i64)
    requires
        -2 * COORD_LIMIT <= a.x <= 2 * COORD_LIMIT,
        -2 * COORD_LIMIT <= a.y <= 2 * COORD_LIMIT,
        -2 * COORD_LIMIT <= b.x <= 2 * COORD_LIMIT,
        -2 * COORD_LIMIT <= b.y <= 2 * COORD_LIMIT,
        -2 * COORD_LIMIT <= c.x <= 2 * COORD_LIMIT,
        -2 * COORD_LIMIT <= c.y <= 2 * COORD_LIMIT,
    ensures
        e == edge_fn(a.x as int, a.y as int, b.x as int, b.y as int, c.x as int, c.y as int),
        -0x200_0000_0000_0000 <= e <= 0x200_0000_0000_0000,
{
    proof {
        assert((c.x - a.x) * (b.y - a.y) <= 0x100_0000_0000_0000 && (c.x - a.x) * (b.y - a.y)
            >= -0x100_0000_0000_0000 && (c.y - a.y) * (b.x - a.x) <= 0x100_0000_0000_0000 && (c.y
            - a.y) * (b.x - a.x) >= -0x100_0000_0000_0000) by (nonlinear_arith)
            requires
                -0x1000_0000 <= c.x - a.x <= 0x1000_0000,
                -0x1000_0000 <= b.y - a.y <= 0x1000_0000,
                -0x1000_0000 <= c.y - a.y <= 0x1000_0000,
                -0x1000_0000 <= b.x - a.x <= 0x1000_0000,
        ;
    }
    (c.x - a.x) * (b.y - a.y) - (c.y - a.y) * (b.x - a.x)
}

/// Smallest of three values.
fn min3(a: i64, b: i64, c: i64) -> (m: i64)
    ensures
        m == min_spec(min_spec(a as int, b as int), c as int),
{
    let ab = if a < b { a } else { b };
    if ab < c { ab } else { c }
}

/// Largest of three values.
fn max3(a: i64, b: i64, c: i64) -> (m: i64)
    ensures
        m == max_spec(max_spec(a as int, b as int), c as int),
{
    let ab = if a > b { a } else { b };
    if ab > c { ab } else { c }
}

/// The integer pixel bounding box of a screen-space triangle: floor of the
/// minima, ceiling of the maxima.
pub fn calculate_bounding_box(v1: &Vec3Fx, v2: &Vec3Fx, v3: &Vec3Fx) -> (bb: (i64, i64, i64, i64))
    requires
        v1.in_coord_range(),
        v2.in_coord_range(),
        v3.in_coord_range(),
    ensures
        bb.0 == min_spec(min_spec(v1.x as int, v2.x as int), v3.x as int) / (FX as int),
        bb.1 == min_spec(min_spec(v1.y as int, v2.y as int), v3.y as int) / (FX as int),
        bb.2 == (max_spec(max_spec(v1.x as int, v2.x as int), v3.x as int) + FX - 1) / (FX as int),
        bb.3 == (max_spec(max_spec(v1.y as int, v2.y as int), v3.y as int) + FX - 1) / (FX as int),
        -0x40001 <= bb.0 <= 0x40001,
        -0x40001 <= bb.1 <= 0x40001,
        -0x40001 <= bb.2 <= 0x40001,
        -0x40001 <= bb.3 <= 0x40001,
{
    let min_x = floor_div(min3(v1.x, v2.x, v3.x), FX);
    let min_y = floor_div(min3(v1.y, v2.y, v3.y), FX);
    let max_x = ceil_div(max3(v1.x, v2.x, v3.x), FX);
    let max_y = ceil_div(max3(v1.y, v2.y, v3.y), FX);
    proof {
        lemma_bbox_coord_bound(min_spec(min_spec(v1.x as int, v2.x as int), v3.x as int));
        lemma_bbox_coord_bound(min_spec(min_spec(v1.y as int, v2.y as int), v3.y as int));
        lemma_bbox_coord_bound(max_spec(max_spec(v1.x as int, v2.x as int), v3.x as int) + FX - 1);
        lemma_bbox_coord_bound(max_spec(max_spec(v1.y as int, v2.y as int), v3.y as int) + FX - 1);
    }
    (min_x, min_y, max_x, max_y)
}

/// Dividing a bounded coordinate by `FX` gives a bounded pixel index.
proof fn lemma_bbox_coord_bound(a: int)
    requires
        -COORD_LIMIT - FX <= a <= COORD_LIMIT + FX,
    ensures
        -0x40001 <= a / (FX as int) <= 0x40001,
{
    lemma_div_is_ordered(-(COORD_LIMIT as int) - FX, a, FX as int);
    lemma_div_is_ordered(a, COORD_LIMIT as int + FX, FX as int);
    crate::fx::lemma_div_exact(-0x40001, FX as int);
    crate::fx::lemma_div_exact(0x40001, FX as int);
    assert(-(COORD_LIMIT as int) - FX == -0x40001 * (FX as int));
    assert(COORD_LIMIT as int + FX == 0x40001 * (FX as int));
}

/// Renormalize an interpolated normal: scale by `FX` over the integer
/// square root of the squared magnitude, so a unit vector keeps magnitude
/// about `FX`. The intensity is the renormalized z-component clamped into
/// [0, FX]. A zero vector stays zero with zero intensity.
fn renormalize(rnx: i64, rny: i64, rnz: i64) -> (r: (Vec3Fx, i64))
    requires
        -COORD_LIMIT <= rnx <= COORD_LIMIT,
        -COORD_LIMIT <= rny <= COORD_LIMIT,
        -COORD_LIMIT <= rnz <= COORD_LIMIT,
    ensures
        normal_matches(rnx as int, rny as int, rnz as int, r.0, r.1 as int),
        0 <= r.1 <= FX,
{
    proof {
        assert(0 <= rnx * rnx <= 0x10_0000_0000_0000 && 0 <= rny * rny <= 0x10_0000_0000_0000 && 0
            <= rnz * rnz <= 0x10_0000_0000_0000) by (nonlinear_arith)
            requires
                -0x400_0000 <= rnx <= 0x400_0000,
                -0x400_0000 <= rny <= 0x400_0000,
                -0x400_0000 <= rnz <= 0x400_0000,
        ;
    }
    let nsq: i64 = rnx * rnx + rny * rny + rnz * rnz;
    let sroot: u64 = isqrt_u64(nsq as u64);
    let si: i64 = sroot as i64;
    if si == 0 {
        proof {
            assert(is_isqrt((rnx * rnx + rny * rny + rnz * rnz) as int, 0));
        }
        (Vec3Fx { x: 0, y: 0, z: 0 }, 0)
    } else {
        let nx: i64 = rnx * FX / si;
        let ny: i64 = rny * FX / si;
        let nz: i64 = rnz * FX / si;
        let inten: i64 = clamp_i64(nz, 0, FX);
        proof {
            assert(is_isqrt((rnx * rnx + rny * rny + rnz * rnz) as int, si as int));
        }
        (Vec3Fx { x: nx, y: ny, z: nz }, inten)
    }
}

/// Some fragment in the sequence lands on pixel `(px, py)`.
pub open spec fn emits_pixel(fragments: Seq<Fragment>, px: int, py: int) -> bool {
    exists|i: int| 0 <= i < fragments.len() && fragments[i].x == px && #[trigger] fragments[i].y == py
}

/// Pushing one more fragment keeps every pixel already emitted.
proof fn lemma_emits_push(s: Seq<Fragment>, f: Fragment, px: int, py: int)
    requires
        emits_pixel(s, px, py),
    ensures
        emits_pixel(s.push(f), px, py),
{
    let i = choose|i: int| 0 <= i < s.len() && s[i].x == px && #[trigger] s[i].y == py;
    assert(s.push(f)[i] == s[i]);
}

/// Strict row-major order on fragments: earlier rows first, then earlier
/// columns within a row. Strictness means no pixel appears twice.
pub open spec fn row_major_before(f: Fragment, g: Fragment) -> bool {
    f.y < g.y || (f.y == g.y && f.x < g.x)
}

/// Rasterize one triangle of transformed vertices into fragments.
///
/// Scans the triangle's pixel bounding box and emits exactly one fragment
/// for every pixel whose sample center the triangle covers (all three
/// barycentric weights non-negative), in strict row-major order, each
/// fragment carrying the attributes interpolated at that center. A triangle entirely outside the
/// `vw` x `vh` viewport on one axis is rejected early, and a triangle of
/// (near-)zero signed screen area contributes no fragments.
pub fn triangle(v1: &Vertex, v2: &Vertex, v3: &Vertex, vw: i64, vh: i64) -> (fragments: Vec<
    Fragment,
>)
    requires
        v1.raster_ready(),
        v2.raster_ready(),
        v3.raster_ready(),
        0 < vw <= 0x40000,
        0 < vh <= 0x40000,
    ensures
        culled(*v1, *v2, *v3, vw as int, vh as int) ==> fragments@.len() == 0,
        abs_spec(tri_area(*v1, *v2, *v3)) < AREA_EPS ==> fragments@.len() == 0,
        forall|i: int|
            0 <= i < fragments@.len() ==> fragment_matches(#[trigger] fragments@[i], *v1, *v2, *v3),
        forall|i: int, j: int|
            0 <= i < j < fragments@.len() ==> #[trigger] row_major_before(
                fragments@[i],
                fragments@[j],
            ),
        (!culled(*v1, *v2, *v3, vw as int, vh as int) && abs_spec(tri_area(*v1, *v2, *v3))
            >= AREA_EPS) ==> forall|px: int, py: int|
            bbox_min_x(*v1, *v2, *v3) <= px <= bbox_max_x(*v1, *v2, *v3) && bbox_min_y(
                *v1,
                *v2,
                *v3,
            ) <= py <= bbox_max_y(*v1, *v2, *v3) && inside_pixel(*v1, *v2, *v3, px, py)
                ==> emits_pixel(fragments@, px, py),
{
    let fragments: Vec<Fragment> = Vec::new();
    let a = v1.transformed_position;
    let b = v2.transformed_position;
    let c = v3.transformed_position;

    // Early rejection: every vertex beyond the same viewport edge.
    if (a.x < 0 && b.x < 0 && c.x < 0) || (a.x > vw * FX && b.x > vw * FX && c.x > vw * FX) || (a.y
        < 0 && b.y < 0 && c.y < 0) || (a.y > vh * FX && b.y > vh * FX && c.y > vh * FX) {
        return fragments;
    }

    let area0: i64 = edge_function(&a, &b, &c);
    let area_abs: i64 = if area0 < 0 { -area0 } else { area0 };

    // Degenerate (zero or near-zero screen area) triangles contribute
    // nothing.
    if area_abs < AREA_EPS {
        return fragments;
    }
    let flip = area0 < 0;

    let bb = calculate_bounding_box(&a, &b, &c);
    let min_x: i64 = bb.0;
    let min_y: i64 = bb.1;
    let max_x: i64 = bb.2;
    let max_y: i64 = bb.3;

    let mut fragments = fragments;
    let mut py: i64 = min_y;
    while py <= max_y
        invariant
            v1.raster_ready(),
            v2.raster_ready(),
            v3.raster_ready(),
            a == v1.transformed_position,
            b == v2.transformed_position,
            c == v3.transformed_position,
            area0 == tri_area(*v1, *v2, *v3),
            area_abs == abs_spec(area0 as int),
            area_abs >= AREA_EPS,
            flip == (area0 < 0),
            min_x == bbox_min_x(*v1, *v2, *v3),
            min_y == bbox_min_y(*v1, *v2, *v3),
            max_x == bbox_max_x(*v1, *v2, *v3),
            max_y == bbox_max_y(*v1, *v2, *v3),
            -0x40001 <= min_x <= 0x40001,
            -0x40001 <= max_x <= 0x40001,
            -0x40001 <= min_y <= 0x40001,
            min_y <= py <= max_y + 1,
            forall|i: int|
                0 <= i < fragments@.len() ==> fragment_matches(
                    #[trigger] fragments@[i],
                    *v1,
                    *v2,
                    *v3,
                ),
            forall|i: int| 0 <= i < fragments@.len() ==> (#[trigger] fragments@[i]).y < py,
            forall|i: int, j: int|
                0 <= i < j < fragments@.len() ==> #[trigger] row_major_before(
                    fragments@[i],
                    fragments@[j],
                ),
            forall|qx: int, qy: int|
                min_x <= qx <= max_x && min_y <= qy < py && inside_pixel(*v1, *v2, *v3, qx, qy)
                    ==> emits_pixel(fragments@, qx, qy),
        decreases max_y + 1 - py,
    {
        let mut px: i64 = min_x;
        while px <= max_x
            invariant
                v1.raster_ready(),
                v2.raster_ready(),
                v3.raster_ready(),
                a == v1.transformed_position,
                b == v2.transformed_position,
                c == v3.transformed_position,
                area0 == tri_area(*v1, *v2, *v3),
                area_abs == abs_spec(area0 as int),
                area_abs >= AREA_EPS,
                flip == (area0 < 0),
                min_x == bbox_min_x(*v1, *v2, *v3),
                min_y == bbox_min_y(*v1, *v2, *v3),
                max_x == bbox_max_x(*v1, *v2, *v3),
                max_y == bbox_max_y(*v1, *v2, *v3),
                -0x40001 <= min_x <= 0x40001,
                -0x40001 <= max_x <= 0x40001,
                -0x40001 <= min_y <= 0x40001,
                min_y <= py <= max_y,
                min_x <= px <= max_x + 1,
                forall|i: int|
                    0 <= i < fragments@.len() ==> fragment_matches(
                        #[trigger] fragments@[i],
                        *v1,
                        *v2,
                        *v3,
                    ),
                forall|i: int|
                    0 <= i < fragments@.len() ==> ((#[trigger] fragments@[i]).y < py || (
                    fragments@[i].y == py && fragments@[i].x < px)),
                forall|i: int, j: int|
                    0 <= i < j < fragments@.len() ==> #[trigger] row_major_before(
                        fragments@[i],
                        fragments@[j],
                    ),
                forall|qx: int, qy: int|
                    min_x <= qx <= max_x && min_y <= qy < py && inside_pixel(*v1, *v2, *v3, qx, qy)
                        ==> emits_pixel(fragments@, qx, qy),
                forall|qx: int|
                    min_x <= qx < px && inside_pixel(*v1, *v2, *v3, qx, py as int) ==> emits_pixel(
                        fragments@,
                        qx,
                        py as int,
                    ),
            decreases max_x + 1 - px,
        {
            let cx: i64 = px * FX + FX_HALF;
            let cy: i64 = py * FX + FX_HALF;
            let p = Vec3Fx { x: cx, y: cy, z: 0 };
            let e1: i64 = edge_function(&b, &c, &p);
            let e2: i64 = edge_function(&c, &a, &p);
            let e3: i64 = edge_function(&a, &b, &p);
            let w1: i64 = if flip { -e1 } else { e1 };
            let w2: i64 = if flip { -e2 } else { e2 };
            let w3: i64 = if flip { -e3 } else { e3 };
            proof {
                lemma_edge_sum(
                    a.x as int,
                    a.y as int,
                    b.x as int,
                    b.y as int,
                    c.x as int,
                    c.y as int,
                    cx as int,
                    cy as int,
                );
                assert(w1 == weight1(*v1, *v2, *v3, px as int, py as int));
                assert(w2 == weight2(*v1, *v2, *v3, px as int, py as int));
                assert(w3 == weight3(*v1, *v2, *v3, px as int, py as int));
                assert(w1 + w2 + w3 == area_abs);
            }
            if w1 >= 0 && w2 >= 0 && w3 >= 0 {
                let depth: i64 = interp_attr(a.z, b.z, c.z, w1, w2, w3, area_abs);
                let wx: i64 = interp_attr(
                    v1.position.x,
                    v2.position.x,
                    v3.position.x,
                    w1,
                    w2,
                    w3,
                    area_abs,
                );
                let wy: i64 = interp_attr(
                    v1.position.y,
                    v2.position.y,
                    v3.position.y,
                    w1,
                    w2,
                    w3,
                    area_abs,
                );
                let wz: i64 = interp_attr(
                    v1.position.z,
                    v2.position.z,
                    v3.position.z,
                    w1,
                    w2,
                    w3,
                    area_abs,
                );
                let ux: i64 = interp_attr(
                    v1.tex_coords.x,
                    v2.tex_coords.x,
                    v3.tex_coords.x,
                    w1,
                    w2,
                    w3,
                    area_abs,
                );
                let uy: i64 = interp_attr(
                    v1.tex_coords.y,
                    v2.tex_coords.y,
                    v3.tex_coords.y,
                    w1,
                    w2,
                    w3,
                    area_abs,
                );
                let rnx: i64 = interp_attr(
                    v1.transformed_normal.x,
                    v2.transformed_normal.x,
                    v3.transformed_normal.x,
                    w1,
                    w2,
                    w3,
                    area_abs,
                );
                let rny: i64 = interp_attr(
                    v1.transformed_normal.y,
                    v2.transformed_normal.y,
                    v3.transformed_normal.y,
                    w1,
                    w2,
                    w3,
                    area_abs,
                );
                let rnz: i64 = interp_attr(
                    v1.transformed_normal.z,
                    v2.transformed_normal.z,
                    v3.transformed_normal.z,
                    w1,
                    w2,
                    w3,
                    area_abs,
                );
                let nr = renormalize(rnx, rny, rnz);
                let frag = Fragment {
                    x: px,
                    y: py,
                    color: v1.color,
                    depth,
                    normal: nr.0,
                    intensity: nr.1,
                    world_pos: Vec3Fx { x: wx, y: wy, z: wz },
                    tex_coords: Some(Vec2Fx { x: ux, y: uy }),
                };
                proof {
                    assert(fragment_matches(frag, *v1, *v2, *v3));
                }
                let ghost pre = fragments@;
                fragments.push(frag);
                proof {
                    assert(fragments@[pre.len() as int] == frag);
                    assert forall|i: int, j: int|
                        0 <= i < j < fragments@.len() implies #[trigger] row_major_before(
                        fragments@[i],
                        fragments@[j],
                    ) by {
                        if j < pre.len() {
                            assert(fragments@[i] == pre[i] && fragments@[j] == pre[j]);
                        } else {
                            assert(fragments@[i] == pre[i] && fragments@[j] == frag);
                        }
                    }
                    assert forall|qx: int, qy: int|
                        min_x <= qx <= max_x && min_y <= qy < py && inside_pixel(
                            *v1,
                            *v2,
                            *v3,
                            qx,
                            qy,
                        ) implies emits_pixel(fragments@, qx, qy) by {
                        lemma_emits_push(pre, frag, qx, qy);
                    }
                    assert forall|qx: int|
                        min_x <= qx < px + 1 && inside_pixel(
                            *v1,
                            *v2,
                            *v3,
                            qx,
                            py as int,
                        ) implies emits_pixel(fragments@, qx, py as int) by {
                        if qx < px {
                            lemma_emits_push(pre, frag, qx, py as int);
                        } else {
                            assert(fragments@[pre.len() as int].x == qx && fragments@[pre.len() as int].y
                                == py as int);
                        }
                    }
                }
            }
            px = px + 1;
        }
        py = py + 1;
    }
    fragments
}

} // verus!
