use vstd::prelude::*;
use crate::fx::abs_spec;
use crate::geometry::{Fragment, Vertex};
use crate::raster::{
    bbox_max_x, bbox_max_y, bbox_min_x, bbox_min_y, culled, emits_pixel, fragment_matches,
    inside_pixel, tri_area, triangle, AREA_EPS,
};
use crate::transform::{vertex_shader, vertex_shader_spec, Uniforms};

verus! {

/// The fragment comes from the `t`-th consecutive vertex triple of the
/// mesh: all three vertices survived the transform stage, and the fragment
/// is one of that screen triangle's rasterized samples.
pub open spec fn from_mesh_triangle(f: Fragment, vertices: Seq<Vertex>, u: Uniforms) -> bool {
    exists|t: int|
        {
            &&& 0 <= t
            &&& 3 * t + 2 < vertices.len()
            &&& #[trigger] vertex_shader_spec(vertices[3 * t], u) is Some
            &&& vertex_shader_spec(vertices[3 * t + 1], u) is Some
            &&& vertex_shader_spec(vertices[3 * t + 2], u) is Some
            &&& fragment_matches(
                f,
                vertex_shader_spec(vertices[3 * t], u).unwrap(),
                vertex_shader_spec(vertices[3 * t + 1], u).unwrap(),
                vertex_shader_spec(vertices[3 * t + 2], u).unwrap(),
            )
        }
}

/// The `t`-th consecutive vertex triple of the mesh survives the
/// transform stage whole, its screen triangle is neither culled by the
/// viewport test nor degenerate, and the center of pixel `(px, py)` lies
/// inside it within its scanned bounding box: everything that obliges the
/// rasterizer to emit that pixel.
pub open spec fn mesh_triple_covers(
    vertices: Seq<Vertex>,
    u: Uniforms,
    vw: int,
    vh: int,
    t: int,
    px: int,
    py: int,
) -> bool {
    let r1 = vertex_shader_spec(vertices[3 * t], u);
    let r2 = vertex_shader_spec(vertices[3 * t + 1], u);
    let r3 = vertex_shader_spec(vertices[3 * t + 2], u);
    &&& 0 <= t
    &&& 3 * t + 2 < vertices.len()
    &&& r1 is Some
    &&& r2 is Some
    &&& r3 is Some
    &&& !culled(r1.unwrap(), r2.unwrap(), r3.unwrap(), vw, vh)
    &&& abs_spec(tri_area(r1.unwrap(), r2.unwrap(), r3.unwrap())) >= AREA_EPS
    &&& bbox_min_x(r1.unwrap(), r2.unwrap(), r3.unwrap()) <= px <= bbox_max_x(
        r1.unwrap(),
        r2.unwrap(),
        r3.unwrap(),
    )
    &&& bbox_min_y(r1.unwrap(), r2.unwrap(), r3.unwrap()) <= py <= bbox_max_y(
        r1.unwrap(),
        r2.unwrap(),
        r3.unwrap(),
    )
    &&& inside_pixel(r1.unwrap(), r2.unwrap(), r3.unwrap(), px, py)
}

/// A pixel emitted among the earlier fragments is still emitted after
/// more are appended.
proof fn lemma_emits_append_left(pre: Seq<Fragment>, more: Seq<Fragment>, px: int, py: int)
    requires
        emits_pixel(pre, px, py),
    ensures
        emits_pixel(pre + more, px, py),
{
    let i = choose|i: int| 0 <= i < pre.len() && pre[i].x == px && #[trigger] pre[i].y == py;
    assert((pre + more)[i] == pre[i]);
}

/// A pixel emitted among appended fragments is emitted in the whole.
proof fn lemma_emits_append_right(pre: Seq<Fragment>, more: Seq<Fragment>, px: int, py: int)
    requires
        emits_pixel(more, px, py),
    ensures
        emits_pixel(pre + more, px, py),
{
    let i = choose|i: int| 0 <= i < more.len() && more[i].x == px && #[trigger] more[i].y == py;
    assert((pre + more)[pre.len() + i] == more[i]);
}

/// Run the vertex transform and the rasterizer over a whole mesh: the
/// vertex stream is consumed in consecutive groups of three (a trailing
/// partial group is dropped), each group whose three vertices survive the
/// transform stage is rasterized, and all fragments are collected in
/// order. Every fragment belongs to one of the mesh's screen triangles
/// with exactly interpolated attributes, and every pixel one of those
/// triangles covers is emitted.
pub fn rasterize_mesh(vertices: &Vec<Vertex>, u: &Uniforms, vw: i64, vh: i64) -> (fragments: Vec<
    Fragment,
>)
    requires
        u.wf(),
        forall|i: int| 0 <= i < vertices@.len() ==> (#[trigger] vertices@[i]).raster_ready(),
        0 < vw <= 0x40000,
        0 < vh <= 0x40000,
    ensures
        forall|j: int|
            0 <= j < fragments@.len() ==> from_mesh_triangle(
                #[trigger] fragments@[j],
                vertices@,
                *u,
            ),
        forall|t: int, px: int, py: int|
            #[trigger] mesh_triple_covers(vertices@, *u, vw as int, vh as int, t, px, py)
                ==> emits_pixel(fragments@, px, py),
{
    let mut fragments: Vec<Fragment> = Vec::new();
    let n = vertices.len();
    let mut i: usize = 0;
    let ghost mut groups: int = 0;
    while i < n && n - i >= 3
        invariant
            u.wf(),
            n == vertices@.len(),
            forall|k: int| 0 <= k < n ==> (#[trigger] vertices@[k]).raster_ready(),
            0 < vw <= 0x40000,
            0 < vh <= 0x40000,
            i % 3 == 0,
            i == 3 * groups,
            0 <= groups,
            i <= n + 2,
            forall|j: int|
                0 <= j < fragments@.len() ==> from_mesh_triangle(
                    #[trigger] fragments@[j],
                    vertices@,
                    *u,
                ),
            forall|t: int, px: int, py: int|
                t < groups && #[trigger] mesh_triple_covers(
                    vertices@,
                    *u,
                    vw as int,
                    vh as int,
                    t,
                    px,
                    py,
                ) ==> emits_pixel(fragments@, px, py),
        decreases n - i,
    {
        let t1 = vertex_shader(&vertices[i], u);
        let t2 = vertex_shader(&vertices[i + 1], u);
        let t3 = vertex_shader(&vertices[i + 2], u);
        if t1.is_some() && t2.is_some() && t3.is_some() {
            let v1 = t1.unwrap();
            let v2 = t2.unwrap();
            let v3 = t3.unwrap();
            let mut tri_frags = triangle(&v1, &v2, &v3, vw, vh);
            let ghost pre = fragments@;
            let ghost tf = tri_frags@;
            fragments.append(&mut tri_frags);
            proof {
                let gt = i as int / 3;
                assert(3 * gt == i as int);
                assert forall|j: int|
                    0 <= j < fragments@.len() implies from_mesh_triangle(
                    #[trigger] fragments@[j],
                    vertices@,
                    *u,
                ) by {
                    if j < pre.len() {
                        assert(fragments@[j] == pre[j]);
                    } else {
                        assert(fragments@[j] == tf[j - pre.len()]);
                        assert(fragment_matches(fragments@[j], v1, v2, v3));
                        assert(vertex_shader_spec(vertices@[3 * gt], *u) is Some);
                    }
                }
                assert(fragments@ == pre + tf);
                assert forall|t: int, px: int, py: int|
                    t < groups + 1 && #[trigger] mesh_triple_covers(
                        vertices@,
                        *u,
                        vw as int,
                        vh as int,
                        t,
                        px,
                        py,
                    ) implies emits_pixel(fragments@, px, py) by {
                    if t < groups {
                        lemma_emits_append_left(pre, tf, px, py);
                    } else {
                        assert(t == groups && 3 * t == i as int);
                        assert(vertex_shader_spec(vertices@[3 * t], *u).unwrap() == v1);
                        assert(vertex_shader_spec(vertices@[3 * t + 1], *u).unwrap() == v2);
                        assert(vertex_shader_spec(vertices@[3 * t + 2], *u).unwrap() == v3);
                        assert(emits_pixel(tf, px, py));
                        lemma_emits_append_right(pre, tf, px, py);
                    }
                }
            }
        } else {
            proof {
                assert forall|t: int, px: int, py: int|
                    t < groups + 1 && #[trigger] mesh_triple_covers(
                        vertices@,
                        *u,
                        vw as int,
                        vh as int,
                        t,
                        px,
                        py,
                    ) implies emits_pixel(fragments@, px, py) by {
                    if t == groups {
                        assert(3 * t == i as int);
                        assert(!(vertex_shader_spec(vertices@[3 * t], *u) is Some
                            && vertex_shader_spec(vertices@[3 * t + 1], *u) is Some
                            && vertex_shader_spec(vertices@[3 * t + 2], *u) is Some));
                    }
                }
            }
        }
        i = i + 3;
        proof {
            groups = groups + 1;
        }
    }
    proof {
        assert forall|t: int, px: int, py: int|
            #[trigger] mesh_triple_covers(vertices@, *u, vw as int, vh as int, t, px, py)
                implies emits_pixel(fragments@, px, py) by {
            assert(3 * t + 2 < n);
            assert(t < groups);
        }
    }
    fragments
}

} // verus!
