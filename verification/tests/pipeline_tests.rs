use solar_raster::color::Color;
use solar_raster::framebuffer::Framebuffer;
use solar_raster::fx::FX;
use solar_raster::geometry::{Vec2Fx, Vec3Fx, Vertex};
use solar_raster::pipeline::rasterize_mesh;
use solar_raster::raster::triangle;
use solar_raster::shading::{
    create_noise, fragment_shader, shader_kind, BodyKind, FractalKind, NoiseKind, NoiseSamples,
};
use solar_raster::transform::{
    create_viewport_matrix, vertex_shader, world_to_screen, Mat4Fx, Uniforms,
};
use solar_raster::geometry::Vec4Fx;

fn screen_vertex(x: i64, y: i64, z: i64, color: Color) -> Vertex {
    Vertex {
        position: Vec3Fx { x, y, z },
        normal: Vec3Fx { x: 0, y: 0, z: FX },
        tex_coords: Vec2Fx { x: 0, y: 0 },
        color,
        transformed_position: Vec3Fx { x, y, z },
        transformed_normal: Vec3Fx { x: 0, y: 0, z: FX },
    }
}

#[test]
fn fully_offscreen_triangle_yields_no_fragments() {
    let c = Color::new(255, 0, 0);
    // Every vertex left of the viewport.
    let v1 = screen_vertex(-5 * FX, 2 * FX, FX, c);
    let v2 = screen_vertex(-3 * FX, 8 * FX, FX, c);
    let v3 = screen_vertex(-9 * FX, 14 * FX, FX, c);
    assert_eq!(triangle(&v1, &v2, &v3, 32, 32).len(), 0);
    // Every vertex below the viewport.
    let v4 = screen_vertex(2 * FX, 40 * FX, FX, c);
    let v5 = screen_vertex(8 * FX, 45 * FX, FX, c);
    let v6 = screen_vertex(14 * FX, 50 * FX, FX, c);
    assert_eq!(triangle(&v4, &v5, &v6, 32, 32).len(), 0);
}

#[test]
fn degenerate_triangle_yields_no_fragments() {
    let c = Color::new(255, 0, 0);
    // Three collinear points: zero signed area.
    let v1 = screen_vertex(2 * FX, 2 * FX, FX, c);
    let v2 = screen_vertex(10 * FX, 10 * FX, FX, c);
    let v3 = screen_vertex(20 * FX, 20 * FX, FX, c);
    assert_eq!(triangle(&v1, &v2, &v3, 32, 32).len(), 0);
}

#[test]
fn axis_aligned_triangle_covers_expected_pixels() {
    // An axis-aligned right triangle at (10,10), (20,10), (10,20) on a
    // 32x32 target cleared to black: exactly the pixels bounded by the
    // hypotenuse are lit, all with equal intensity.
    let c = Color::new(200, 180, 40);
    let v1 = screen_vertex(10 * FX, 10 * FX, 4 * FX, c);
    let v2 = screen_vertex(20 * FX, 10 * FX, 4 * FX, c);
    let v3 = screen_vertex(10 * FX, 20 * FX, 4 * FX, c);
    let frags = triangle(&v1, &v2, &v3, 32, 32);

    let mut fb = Framebuffer::new(32, 32);
    fb.set_background_color(0x000000);
    fb.clear();
    let samples = NoiseSamples { surface: 0, cloud: 0, band: 0 };
    for f in &frags {
        // The flat normal faces the light, so every fragment is at full
        // intensity and an unlit shade keeps the full base color.
        assert_eq!(f.intensity, FX);
        assert_eq!(f.depth, 4 * FX);
        let (color, emission) = fragment_shader(f, BodyKind::Ring, samples, 0);
        assert_eq!(emission, 0);
        assert!(0 <= f.x && f.x < 32 && 0 <= f.y && f.y < 32);
        fb.set_current_color(color.to_hex());
        fb.point(f.x as usize, f.y as usize, f.depth, emission);
    }

    let lit = Color::new(150, 140, 120).to_hex();
    let mut covered = 0;
    for y in 0..32i64 {
        for x in 0..32i64 {
            let inside = x >= 10 && y >= 10 && x + y <= 29;
            let pixel = fb.get_color(x as usize, y as usize);
            if inside {
                assert_eq!(pixel, lit);
                covered += 1;
            } else {
                assert_eq!(pixel, 0x000000);
            }
        }
    }
    assert_eq!(covered, 55);
    assert_eq!(frags.len(), 55);
}

#[test]
fn overlapping_triangles_resolve_by_depth_not_order() {
    let red = Color::new(255, 0, 0);
    let blue = Color::new(0, 0, 255);
    let near1 = screen_vertex(2 * FX, 2 * FX, 3 * FX, red);
    let near2 = screen_vertex(14 * FX, 2 * FX, 3 * FX, red);
    let near3 = screen_vertex(2 * FX, 14 * FX, 3 * FX, red);
    let far1 = screen_vertex(2 * FX, 2 * FX, 9 * FX, blue);
    let far2 = screen_vertex(14 * FX, 2 * FX, 9 * FX, blue);
    let far3 = screen_vertex(2 * FX, 14 * FX, 9 * FX, blue);
    let samples = NoiseSamples { surface: 0, cloud: 0, band: 0 };

    for order in 0..2 {
        let mut fb = Framebuffer::new(16, 16);
        fb.clear();
        let batches = if order == 0 {
            [(&near1, &near2, &near3), (&far1, &far2, &far3)]
        } else {
            [(&far1, &far2, &far3), (&near1, &near2, &near3)]
        };
        for (a, b, c) in batches {
            for f in &triangle(a, b, c, 16, 16) {
                let (color, emission) = fragment_shader(f, BodyKind::Ring, samples, 0);
                let _ = color;
                fb.set_current_color(f.color.to_hex());
                fb.point(f.x as usize, f.y as usize, f.depth, emission);
            }
        }
        // The overlap shows the nearer (red) triangle whatever the order.
        assert_eq!(fb.get_color(4, 4), red.to_hex());
        assert_eq!(fb.get_depth(4, 4), 3 * FX);
    }
}

#[test]
fn identity_pipeline_maps_origin_to_screen_center() {
    let u = Uniforms {
        model_matrix: Mat4Fx::identity(),
        view_matrix: Mat4Fx::identity(),
        projection_matrix: Mat4Fx::identity(),
        viewport_matrix: create_viewport_matrix(32, 32),
        time: 0,
        current_shader: 9,
    };
    let v = screen_vertex(0, 0, 0, Color::new(1, 2, 3));
    let tv = vertex_shader(&v, &u).expect("origin must survive the transform");
    assert_eq!(tv.transformed_position, Vec3Fx { x: 16 * FX, y: 16 * FX, z: 0 });
    assert_eq!(tv.transformed_normal, Vec3Fx { x: 0, y: 0, z: FX });
    // The viewport y-flip: a point with positive y in device space lands
    // in the upper half of the screen.
    let p = world_to_screen(&Vec3Fx { x: 0, y: FX / 2, z: 0 }, &u).unwrap();
    assert!(p.y < 16 * FX);
    assert_eq!(p.x, 16 * FX);
}

#[test]
fn near_zero_w_is_rejected_not_divided() {
    let zero_row = Vec4Fx { x: 0, y: 0, z: 0, w: 0 };
    let degenerate = Mat4Fx {
        rx: Vec4Fx { x: FX, y: 0, z: 0, w: 0 },
        ry: Vec4Fx { x: 0, y: FX, z: 0, w: 0 },
        rz: Vec4Fx { x: 0, y: 0, z: FX, w: 0 },
        rw: zero_row,
    };
    let u = Uniforms {
        model_matrix: Mat4Fx::identity(),
        view_matrix: Mat4Fx::identity(),
        projection_matrix: degenerate,
        viewport_matrix: create_viewport_matrix(32, 32),
        time: 0,
        current_shader: 9,
    };
    let v = screen_vertex(FX, FX, FX, Color::new(1, 2, 3));
    assert!(vertex_shader(&v, &u).is_none());
}

#[test]
fn mesh_consumes_vertex_triples_and_drops_the_tail() {
    let u = Uniforms {
        model_matrix: Mat4Fx::identity(),
        view_matrix: Mat4Fx::identity(),
        projection_matrix: Mat4Fx::identity(),
        viewport_matrix: create_viewport_matrix(32, 32),
        time: 0,
        current_shader: 9,
    };
    let c = Color::new(9, 9, 9);
    // One whole triangle around the center plus one trailing vertex.
    let vertices = vec![
        screen_vertex(-FX / 2, -FX / 2, 0, c),
        screen_vertex(FX / 2, -FX / 2, 0, c),
        screen_vertex(-FX / 2, FX / 2, 0, c),
        screen_vertex(FX, FX, 0, c),
    ];
    let frags = rasterize_mesh(&vertices, &u, 32, 32);
    assert!(frags.len() > 0);
    // The same mesh without the dangling vertex produces the same stream.
    let whole = rasterize_mesh(&vertices[0..3].to_vec(), &u, 32, 32);
    assert_eq!(frags.len(), whole.len());
}

#[test]
fn noise_preset_table_is_fixed_per_species() {
    let earth = create_noise(1);
    assert_eq!(earth.seed, 1337);
    assert_eq!(earth.kind, NoiseKind::OpenSimplex2S);
    assert_eq!(earth.fractal, FractalKind::Ridged);
    assert_eq!(earth.octaves, 5);
    assert_eq!(earth.lacunarity_milli, 3000);
    assert_eq!(earth.gain_milli, 500);
    assert_eq!(earth.frequency_milli, 500);
    let mars = create_noise(2);
    assert_eq!((mars.seed, mars.frequency_milli), (1234, 1500));
    assert_eq!(mars.kind, NoiseKind::Perlin);
    let mercury = create_noise(3);
    assert_eq!((mercury.seed, mercury.gain_milli, mercury.frequency_milli), (4321, 1000, 5000));
    let saturn = create_noise(4);
    assert_eq!((saturn.seed, saturn.fractal), (1337, FractalKind::Plain));
    let jupiter = create_noise(5);
    assert_eq!((jupiter.seed, jupiter.octaves), (5678, 6));
    assert_eq!(jupiter.fractal, FractalKind::DomainWarpProgressive);
    let uranus = create_noise(6);
    assert_eq!((uranus.seed, uranus.gain_milli), (2021, 400));
    let moon = create_noise(8);
    assert_eq!((moon.seed, moon.frequency_milli), (4321, 3000));
    assert_eq!(moon.fractal, FractalKind::PingPong);
    // Unknown selectors fall back to the earth preset.
    assert_eq!(create_noise(77), earth);
}

#[test]
fn only_the_sun_emits() {
    let f = solar_raster::geometry::Fragment {
        x: 0,
        y: 0,
        color: Color::new(10, 10, 10),
        depth: 0,
        normal: Vec3Fx { x: 0, y: 0, z: FX },
        intensity: FX,
        world_pos: Vec3Fx { x: 0, y: 0, z: 0 },
        tex_coords: None,
    };
    let samples = NoiseSamples { surface: 0, cloud: 0, band: 0 };
    for id in 1..10u8 {
        let kind = shader_kind(id);
        let (_, emission) = fragment_shader(&f, kind, samples, 0);
        if kind == BodyKind::Sun {
            assert!(emission > 0);
        } else {
            assert_eq!(emission, 0);
        }
    }
    // The sun's glow: 180 + 27 from the noise sample + the frame pulse.
    let (sun_color, e0) = fragment_shader(&f, BodyKind::Sun, samples, 0);
    assert_eq!(e0, 207);
    assert_eq!((sun_color.r, sun_color.b), (255, 40));
    assert_eq!(sun_color.g, 190);
    let (_, e10) = fragment_shader(&f, BodyKind::Sun, samples, 10);
    assert_eq!(e10, 217);
}

#[test]
fn lighting_modulates_every_channel() {
    let mut f = solar_raster::geometry::Fragment {
        x: 0,
        y: 0,
        color: Color::new(10, 10, 10),
        depth: 0,
        normal: Vec3Fx { x: 0, y: 0, z: FX },
        intensity: FX,
        world_pos: Vec3Fx { x: 0, y: 0, z: 0 },
        tex_coords: None,
    };
    let samples = NoiseSamples { surface: 0, cloud: 0, band: 0 };
    let (bright, _) = fragment_shader(&f, BodyKind::Ring, samples, 0);
    assert_eq!((bright.r, bright.g, bright.b), (150, 140, 120));
    f.intensity = FX / 2;
    let (dim, _) = fragment_shader(&f, BodyKind::Ring, samples, 0);
    assert_eq!((dim.r, dim.g, dim.b), (75, 70, 60));
    f.intensity = 0;
    let (dark, _) = fragment_shader(&f, BodyKind::Ring, samples, 0);
    assert_eq!((dark.r, dark.g, dark.b), (0, 0, 0));
}

#[test]
fn depth_interpolates_barycentrically() {
    // A right triangle with depth rising from 0 at the left edge to 16
    // along x: the interpolated depth at a pixel center equals the
    // center's x-coordinate.
    let c = Color::new(1, 1, 1);
    let v1 = screen_vertex(0, 0, 0, c);
    let v2 = screen_vertex(16 * FX, 0, 16 * FX, c);
    let v3 = screen_vertex(0, 16 * FX, 0, c);
    let frags = triangle(&v1, &v2, &v3, 32, 32);
    let mut seen = false;
    for f in &frags {
        if f.x == 4 && f.y == 4 {
            // The sample center sits at x = 4.5 pixels.
            assert_eq!(f.depth, 4 * FX + FX / 2);
            seen = true;
        }
    }
    assert!(seen);
}

#[test]
fn vertex_shader_carries_world_position() {
    // A model matrix that translates by (2, 0, 0): the output vertex's
    // position field holds the model-transformed (world-space) position,
    // while the normal ignores the translation.
    let translate = Mat4Fx {
        rx: Vec4Fx { x: FX, y: 0, z: 0, w: 2 * FX },
        ry: Vec4Fx { x: 0, y: FX, z: 0, w: 0 },
        rz: Vec4Fx { x: 0, y: 0, z: FX, w: 0 },
        rw: Vec4Fx { x: 0, y: 0, z: 0, w: FX },
    };
    let u = Uniforms {
        model_matrix: translate,
        view_matrix: Mat4Fx::identity(),
        projection_matrix: Mat4Fx::identity(),
        viewport_matrix: create_viewport_matrix(32, 32),
        time: 0,
        current_shader: 9,
    };
    let v = screen_vertex(0, 0, 0, Color::new(1, 2, 3));
    let tv = vertex_shader(&v, &u).expect("translated origin must survive");
    assert_eq!(tv.position, Vec3Fx { x: 2 * FX, y: 0, z: 0 });
    assert_eq!(tv.normal, v.normal);
    assert_eq!(tv.transformed_normal, Vec3Fx { x: 0, y: 0, z: FX });
}

#[test]
fn fragments_come_in_strict_row_major_order() {
    let c = Color::new(7, 7, 7);
    let v1 = screen_vertex(2 * FX, 2 * FX, FX, c);
    let v2 = screen_vertex(12 * FX, 2 * FX, FX, c);
    let v3 = screen_vertex(2 * FX, 12 * FX, FX, c);
    let frags = triangle(&v1, &v2, &v3, 16, 16);
    assert!(frags.len() > 1);
    for w in frags.windows(2) {
        let earlier = (w[0].y, w[0].x);
        let later = (w[1].y, w[1].x);
        // Strictly increasing: no pixel is ever emitted twice.
        assert!(earlier < later);
    }
}
