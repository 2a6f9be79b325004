use vstd::prelude::*;
use crate::fx::{tdiv, abs_spec, FX, COORD_LIMIT};
use crate::geometry::{Vec3Fx, Vec4Fx, Vertex};

verus! {

/// Largest magnitude a matrix entry or an intermediate vector component
/// may have for the transform arithmetic to stay exact.
pub const MAT_LIMIT: i64 = 0x4_0000_0000;

/// Perspective divisions by a `w` closer to zero than this (a 64th of a
/// unit) are treated as degenerate and the vertex is rejected instead of
/// divided.
pub const W_EPS: i64 = 4;

/// A 4x4 fixed-point matrix, stored as four rows.
#[derive(Clone, Copy, PartialEq, Eq, Structural, Debug)]
pub struct Mat4Fx {
    pub rx: Vec4Fx,
    pub ry: Vec4Fx,
    pub rz: Vec4Fx,
    pub rw: Vec4Fx,
}

impl Vec4Fx {
    /// Every component within the transform arithmetic bound.
    pub open spec fn bounded(self) -> bool {
        &&& -MAT_LIMIT <= self.x <= MAT_LIMIT
        &&& -MAT_LIMIT <= self.y <= MAT_LIMIT
        &&& -MAT_LIMIT <= self.z <= MAT_LIMIT
        &&& -MAT_LIMIT <= self.w <= MAT_LIMIT
    }
}

impl Mat4Fx {
    /// Every entry within the transform arithmetic bound.
    pub open spec fn wf(self) -> bool {
        &&& self.rx.bounded()
        &&& self.ry.bounded()
        &&& self.rz.bounded()
        &&& self.rw.bounded()
    }

    /// The identity transform.
    pub fn identity() -> (m: Mat4Fx)
        ensures
            m == identity_spec(),
    {
        Mat4Fx {
            rx: Vec4Fx { x: FX, y: 0, z: 0, w: 0 },
            ry: Vec4Fx { x: 0, y: FX, z: 0, w: 0 },
            rz: Vec4Fx { x: 0, y: 0, z: FX, w: 0 },
            rw: Vec4Fx { x: 0, y: 0, z: 0, w: FX },
        }
    }
}

pub open spec fn identity_spec() -> Mat4Fx {
    Mat4Fx {
        rx: Vec4Fx { x: FX as i64, y: 0i64, z: 0i64, w: 0i64 },
        ry: Vec4Fx { x: 0i64, y: FX as i64, z: 0i64, w: 0i64 },
        rz: Vec4Fx { x: 0i64, y: 0i64, z: FX as i64, w: 0i64 },
        rw: Vec4Fx { x: 0i64, y: 0i64, z: 0i64, w: FX as i64 },
    }
}

/// The fixed-point dot product of a matrix row with a vector: the product
/// sum scaled back down by `FX`.
pub open spec fn dot4_spec(r: Vec4Fx, x: int, y: int, z: int, w: int) -> int {
    tdiv(r.x * x + r.y * y + r.z * z + r.w * w, FX as int)
}

/// One row of a matrix application, exact per `dot4_spec`, with a crude
/// but sufficient magnitude bound derived from the operand bounds.
fn fx_dot4(r: &Vec4Fx, x: i64, y: i64, z: i64, w: i64, Ghost(la): Ghost<int>, Ghost(lb): Ghost<
    int,
>) -> (d: i64)
    requires
        0 <= la <= MAT_LIMIT,
        0 <= lb <= MAT_LIMIT,
        -la <= r.x <= la,
        -la <= r.y <= la,
        -la <= r.z <= la,
        -la <= r.w <= la,
        -lb <= x <= lb,
        -lb <= y <= lb,
        -lb <= z <= lb,
        -lb <= w <= lb,
    ensures
        d == dot4_spec(*r, x as int, y as int, z as int, w as int),
        -((4 * (la * lb)) / (FX as int) + 1) <= d <= (4 * (la * lb)) / (FX as int) + 1,
{
    proof {
        assert(-(la * lb) <= r.x * x <= la * lb && -(la * lb) <= r.y * y <= la * lb && -(la * lb)
            <= r.z * z <= la * lb && -(la * lb) <= r.w * w <= la * lb) by (nonlinear_arith)
            requires
                -la <= r.x <= la,
                -la <= r.y <= la,
                -la <= r.z <= la,
                -la <= r.w <= la,
                -lb <= x <= lb,
                -lb <= y <= lb,
                -lb <= z <= lb,
                -lb <= w <= lb,
                la >= 0,
                lb >= 0,
        ;
        assert(0 <= 4 * (la * lb) <= 0x40_0000_0000_0000_0000) by (nonlinear_arith)
            requires
                0 <= la <= 0x4_0000_0000,
                0 <= lb <= 0x4_0000_0000,
        ;
        let q = (4 * (la * lb)) / (FX as int);
        let sum = r.x * x + r.y * y + r.z * z + r.w * w;
        vstd::arithmetic::div_mod::lemma_fundamental_div_mod(4 * (la * lb), FX as int);
        assert((q + 1) * (FX as int) >= 4 * (la * lb));
        vstd::arithmetic::div_mod::lemma_div_is_ordered(
            4 * (la * lb),
            0x40_0000_0000_0000_0000,
            FX as int,
        );
        crate::fx::lemma_div_exact(0x4000_0000_0000_0000, FX as int);
        assert(0x4000_0000_0000_0000 * (FX as int) == 0x40_0000_0000_0000_0000);
        assert(q <= 0x4000_0000_0000_0000);
        crate::fx::lemma_div_pos(4 * (la * lb), FX as int);
        assert(-((q + 1) * (FX as int)) <= sum <= (q + 1) * (FX as int));
        crate::fx::lemma_tdiv_bound(sum, FX as int, q + 1);
    }
    let s: i128 = (r.x as i128) * (x as i128) + (r.y as i128) * (y as i128) + (r.z as i128) * (
    z as i128) + (r.w as i128) * (w as i128);
    let d: i128 = s / (FX as i128);
    proof {
        assert(s == r.x * x + r.y * y + r.z * z + r.w * w);
        assert(d == tdiv(s as int, FX as int));
        assert(tdiv(s as int, FX as int) <= (4 * (la * lb)) / (FX as int) + 1);
        assert(-((4 * (la * lb)) / (FX as int) + 1) <= tdiv(s as int, FX as int));
        assert((4 * (la * lb)) / (FX as int) <= 0x40_0000_0000_0000_0000);
        assert(d <= (4 * (la * lb)) / (FX as int) + 1);
        assert(d <= 0x40_0000_0000_0000_0001);
        assert(-((4 * (la * lb)) / (FX as int) + 1) <= d);
        assert(-0x40_0000_0000_0000_0001 <= d);
        assert(d == dot4_spec(*r, x as int, y as int, z as int, w as int));
        assert(d as i64 == d);
    }
    d as i64
}

/// Apply a matrix to a homogeneous vector: four row dot products.
pub fn mat4_mul_vec(m: &Mat4Fx, v: &Vec4Fx) -> (r: Vec4Fx)
    requires
        m.wf(),
        v.bounded(),
    ensures
        r.x == dot4_spec(m.rx, v.x as int, v.y as int, v.z as int, v.w as int),
        r.y == dot4_spec(m.ry, v.x as int, v.y as int, v.z as int, v.w as int),
        r.z == dot4_spec(m.rz, v.x as int, v.y as int, v.z as int, v.w as int),
        r.w == dot4_spec(m.rw, v.x as int, v.y as int, v.z as int, v.w as int),
{
    Vec4Fx {
        x: fx_dot4(&m.rx, v.x, v.y, v.z, v.w, Ghost(MAT_LIMIT as int), Ghost(MAT_LIMIT as int)),
        y: fx_dot4(&m.ry, v.x, v.y, v.z, v.w, Ghost(MAT_LIMIT as int), Ghost(MAT_LIMIT as int)),
        z: fx_dot4(&m.rz, v.x, v.y, v.z, v.w, Ghost(MAT_LIMIT as int), Ghost(MAT_LIMIT as int)),
        w: fx_dot4(&m.rw, v.x, v.y, v.z, v.w, Ghost(MAT_LIMIT as int), Ghost(MAT_LIMIT as int)),
    }
}

/// Whether a vector may feed the next transform stage.
fn vec4_bounded(v: &Vec4Fx) -> (b: bool)
    ensures
        b == v.bounded(),
{
    -MAT_LIMIT <= v.x && v.x <= MAT_LIMIT && -MAT_LIMIT <= v.y && v.y <= MAT_LIMIT && -MAT_LIMIT
        <= v.z && v.z <= MAT_LIMIT && -MAT_LIMIT <= v.w && v.w <= MAT_LIMIT
}

/// The per-draw-call parameter bundle: the four pipeline matrices, the
/// frame counter that animates the procedural surfaces, and the shader
/// selector naming the surface model to evaluate.
pub struct Uniforms {
    pub model_matrix: Mat4Fx,
    pub view_matrix: Mat4Fx,
    pub projection_matrix: Mat4Fx,
    pub viewport_matrix: Mat4Fx,
    pub time: u32,
    pub current_shader: u8,
}

impl Uniforms {
    pub open spec fn wf(self) -> bool {
        &&& self.model_matrix.wf()
        &&& self.view_matrix.wf()
        &&& self.projection_matrix.wf()
        &&& self.viewport_matrix.wf()
    }
}

/// Spec-level mirror of one matrix application.
pub open spec fn mv_spec(m: Mat4Fx, x: int, y: int, z: int, w: int) -> (int, int, int, int) {
    (dot4_spec(m.rx, x, y, z, w), dot4_spec(m.ry, x, y, z, w), dot4_spec(m.rz, x, y, z, w), dot4_spec(
        m.rw,
        x,
        y,
        z,
        w,
    ))
}

pub open spec fn bounded4(p: (int, int, int, int)) -> bool {
    &&& -MAT_LIMIT <= p.0 <= MAT_LIMIT
    &&& -MAT_LIMIT <= p.1 <= MAT_LIMIT
    &&& -MAT_LIMIT <= p.2 <= MAT_LIMIT
    &&& -MAT_LIMIT <= p.3 <= MAT_LIMIT
}

/// The perspective division of one component by `w`, through the absolute
/// value so the divisor is positive.
pub open spec fn persp_div(q: int, w: int) -> int {
    tdiv(if w < 0 { -q * (FX as int) } else { q * (FX as int) }, abs_spec(w))
}

/// What the vertex transform stage produces: model, view and projection
/// applied in turn, a guarded perspective division, then the viewport
/// mapping; the normal goes through the model matrix with `w = 0` so the
/// translation does not touch it. The output vertex carries the
/// model-transformed (world-space) position in its `position` field, so
/// downstream interpolation works on world coordinates. `None` is the
/// defensive rejection: an intermediate left the arithmetic range, or `w`
/// was too close to zero.
pub open spec fn vertex_shader_spec(v: Vertex, u: Uniforms) -> Option<Vertex> {
    let p1 = mv_spec(u.model_matrix, v.position.x as int, v.position.y as int, v.position.z as int, FX as int);
    let p2 = mv_spec(u.view_matrix, p1.0, p1.1, p1.2, p1.3);
    let p3 = mv_spec(u.projection_matrix, p2.0, p2.1, p2.2, p2.3);
    let n1 = mv_spec(u.model_matrix, v.normal.x as int, v.normal.y as int, v.normal.z as int, 0);
    if !bounded4(p1) || !bounded4(p2) || !bounded4(p3) {
        None
    } else if abs_spec(p3.3) < W_EPS {
        None
    } else {
        let nx = persp_div(p3.0, p3.3);
        let ny = persp_div(p3.1, p3.3);
        let nz = persp_div(p3.2, p3.3);
        if !bounded4((nx, ny, nz, FX as int)) {
            None
        } else {
            let p4 = mv_spec(u.viewport_matrix, nx, ny, nz, FX as int);
            if -COORD_LIMIT <= p4.0 <= COORD_LIMIT && -COORD_LIMIT <= p4.1 <= COORD_LIMIT
                && -COORD_LIMIT <= p4.2 <= COORD_LIMIT && -COORD_LIMIT <= n1.0 <= COORD_LIMIT
                && -COORD_LIMIT <= n1.1 <= COORD_LIMIT && -COORD_LIMIT <= n1.2 <= COORD_LIMIT
                && -COORD_LIMIT <= p1.0 <= COORD_LIMIT && -COORD_LIMIT <= p1.1 <= COORD_LIMIT
                && -COORD_LIMIT <= p1.2 <= COORD_LIMIT {
                Some(
                    Vertex {
                        position: Vec3Fx { x: p1.0 as i64, y: p1.1 as i64, z: p1.2 as i64 },
                        transformed_position: Vec3Fx {
                            x: p4.0 as i64,
                            y: p4.1 as i64,
                            z: p4.2 as i64,
                        },
                        transformed_normal: Vec3Fx {
                            x: n1.0 as i64,
                            y: n1.1 as i64,
                            z: n1.2 as i64,
                        },
                        ..v
                    },
                )
            } else {
                None
            }
        }
    }
}

/// The vertex transform stage: carry a vertex through the model, view and
/// projection matrices, divide by `w` (rejecting near-zero `w` instead of
/// dividing), and map into pixel space through the viewport matrix, which
/// owns the y-flip. The normal is transformed by the model matrix without
/// its translation and is not renormalized here; the rasterizer
/// renormalizes after interpolation. The returned vertex's `position` is
/// the model-transformed (world-space) position, the one the shading
/// stage samples its noise fields at. A vertex the arithmetic cannot
/// carry exactly is rejected (`None`), never mapped to a wrong position.
pub fn vertex_shader(v: &Vertex, u: &Uniforms) -> (r: Option<Vertex>)
    requires
        u.wf(),
        v.raster_ready(),
    ensures
        r == vertex_shader_spec(*v, *u),
        r is Some ==> r.unwrap().raster_ready(),
{
    let p0 = Vec4Fx { x: v.position.x, y: v.position.y, z: v.position.z, w: FX };
    let p1 = mat4_mul_vec(&u.model_matrix, &p0);
    if !vec4_bounded(&p1) {
        return None;
    }
    let p2 = mat4_mul_vec(&u.view_matrix, &p1);
    if !vec4_bounded(&p2) {
        return None;
    }
    let p3 = mat4_mul_vec(&u.projection_matrix, &p2);
    if !vec4_bounded(&p3) {
        return None;
    }
    let wabs: i64 = if p3.w < 0 { -p3.w } else { p3.w };
    if wabs < W_EPS {
        return None;
    }
    let nx: i64 = (if p3.w < 0 { -p3.x } else { p3.x }) * FX / wabs;
    let ny: i64 = (if p3.w < 0 { -p3.y } else { p3.y }) * FX / wabs;
    let nz: i64 = (if p3.w < 0 { -p3.z } else { p3.z }) * FX / wabs;
    let ndc = Vec4Fx { x: nx, y: ny, z: nz, w: FX };
    if !vec4_bounded(&ndc) {
        return None;
    }
    let p4 = mat4_mul_vec(&u.viewport_matrix, &ndc);
    let n0 = Vec4Fx { x: v.normal.x, y: v.normal.y, z: v.normal.z, w: 0 };
    let n1 = mat4_mul_vec(&u.model_matrix, &n0);
    if -COORD_LIMIT <= p4.x && p4.x <= COORD_LIMIT && -COORD_LIMIT <= p4.y && p4.y <= COORD_LIMIT
        && -COORD_LIMIT <= p4.z && p4.z <= COORD_LIMIT && -COORD_LIMIT <= n1.x && n1.x
        <= COORD_LIMIT && -COORD_LIMIT <= n1.y && n1.y <= COORD_LIMIT && -COORD_LIMIT <= n1.z
        && n1.z <= COORD_LIMIT && -COORD_LIMIT <= p1.x && p1.x <= COORD_LIMIT && -COORD_LIMIT
        <= p1.y && p1.y <= COORD_LIMIT && -COORD_LIMIT <= p1.z && p1.z <= COORD_LIMIT {
        Some(
            Vertex {
                position: Vec3Fx { x: p1.x, y: p1.y, z: p1.z },
                normal: v.normal,
                tex_coords: v.tex_coords,
                color: v.color,
                transformed_position: Vec3Fx { x: p4.x, y: p4.y, z: p4.z },
                transformed_normal: Vec3Fx { x: n1.x, y: n1.y, z: n1.z },
            },
        )
    } else {
        None
    }
}

/// Spec-level mirror of `world_to_screen`.
pub open spec fn world_to_screen_spec(p: Vec3Fx, u: Uniforms) -> Option<Vec3Fx> {
    let p2 = mv_spec(u.view_matrix, p.x as int, p.y as int, p.z as int, FX as int);
    let p3 = mv_spec(u.projection_matrix, p2.0, p2.1, p2.2, p2.3);
    if !bounded4(p2) || !bounded4(p3) {
        None
    } else if abs_spec(p3.3) < W_EPS {
        None
    } else {
        let nx = persp_div(p3.0, p3.3);
        let ny = persp_div(p3.1, p3.3);
        let nz = persp_div(p3.2, p3.3);
        if !bounded4((nx, ny, nz, FX as int)) {
            None
        } else {
            let p4 = mv_spec(u.viewport_matrix, nx, ny, nz, FX as int);
            if -COORD_LIMIT <= p4.0 <= COORD_LIMIT && -COORD_LIMIT <= p4.1 <= COORD_LIMIT
                && -COORD_LIMIT <= p4.2 <= COORD_LIMIT {
                Some(Vec3Fx { x: p4.0 as i64, y: p4.1 as i64, z: p4.2 as i64 })
            } else {
                None
            }
        }
    }
}

/// Project one world-space point into pixel space through the view,
/// projection and viewport matrices, with the same guarded perspective
/// division as the vertex transform stage (used for orbit markers).
pub fn world_to_screen(p: &Vec3Fx, u: &Uniforms) -> (r: Option<Vec3Fx>)
    requires
        u.wf(),
        p.in_coord_range(),
    ensures
        r == world_to_screen_spec(*p, *u),
        r is Some ==> r.unwrap().in_coord_range(),
{
    let p0 = Vec4Fx { x: p.x, y: p.y, z: p.z, w: FX };
    let p2 = mat4_mul_vec(&u.view_matrix, &p0);
    if !vec4_bounded(&p2) {
        return None;
    }
    let p3 = mat4_mul_vec(&u.projection_matrix, &p2);
    if !vec4_bounded(&p3) {
        return None;
    }
    let wabs: i64 = if p3.w < 0 { -p3.w } else { p3.w };
    if wabs < W_EPS {
        return None;
    }
    let nx: i64 = (if p3.w < 0 { -p3.x } else { p3.x }) * FX / wabs;
    let ny: i64 = (if p3.w < 0 { -p3.y } else { p3.y }) * FX / wabs;
    let nz: i64 = (if p3.w < 0 { -p3.z } else { p3.z }) * FX / wabs;
    let ndc = Vec4Fx { x: nx, y: ny, z: nz, w: FX };
    if !vec4_bounded(&ndc) {
        return None;
    }
    let p4 = mat4_mul_vec(&u.viewport_matrix, &ndc);
    if -COORD_LIMIT <= p4.x && p4.x <= COORD_LIMIT && -COORD_LIMIT <= p4.y && p4.y <= COORD_LIMIT
        && -COORD_LIMIT <= p4.z && p4.z <= COORD_LIMIT {
        Some(Vec3Fx { x: p4.x, y: p4.y, z: p4.z })
    } else {
        None
    }
}

/// The viewport matrix for a `width` x `height` pixel target: scales
/// normalized device coordinates by the half-extents, flips y (screen
/// origin top-left), and recenters into pixel space.
pub fn create_viewport_matrix(width: i64, height: i64) -> (m: Mat4Fx)
    requires
        0 < width <= 0x40000,
        0 < height <= 0x40000,
    ensures
        m == viewport_matrix_spec(width as int, height as int),
        m.wf(),
{
    Mat4Fx {
        rx: Vec4Fx { x: width * 128, y: 0, z: 0, w: width * 128 },
        ry: Vec4Fx { x: 0, y: -height * 128, z: 0, w: height * 128 },
        rz: Vec4Fx { x: 0, y: 0, z: FX, w: 0 },
        rw: Vec4Fx { x: 0, y: 0, z: 0, w: FX },
    }
}

pub open spec fn viewport_matrix_spec(width: int, height: int) -> Mat4Fx {
    Mat4Fx {
        rx: Vec4Fx { x: (width * 128) as i64, y: 0i64, z: 0i64, w: (width * 128) as i64 },
        ry: Vec4Fx { x: 0i64, y: (-height * 128) as i64, z: 0i64, w: (height * 128) as i64 },
        rz: Vec4Fx { x: 0i64, y: 0i64, z: FX as i64, w: 0i64 },
        rw: Vec4Fx { x: 0i64, y: 0i64, z: 0i64, w: FX as i64 },
    }
}

} // verus!
