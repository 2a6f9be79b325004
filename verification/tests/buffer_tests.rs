use solar_raster::bloom::{apply_bloom, blend_bloom, gaussian_blur};
use solar_raster::color::Color;
use solar_raster::framebuffer::{Framebuffer, DEPTH_FAR};

#[test]
fn color_pack_round_trip() {
    let c = Color::new(12, 200, 7);
    let v = c.to_hex();
    assert_eq!(v, 12 * 0x10000 + 200 * 0x100 + 7);
    let back = Color::from_hex(v);
    assert_eq!(back, c);
    assert_eq!(Color::from_hex(0xFF123456), Color::new(0x12, 0x34, 0x56));
}

#[test]
fn clear_resets_every_pixel() {
    let mut fb = Framebuffer::new(8, 8);
    fb.set_background_color(0x112233);
    fb.set_current_color(0xABCDEF);
    fb.point(3, 4, 100, 9);
    fb.clear();
    for y in 0..8 {
        for x in 0..8 {
            assert_eq!(fb.get_color(x, y), 0x112233);
            assert_eq!(fb.get_emission(x, y), 0);
            assert_eq!(fb.get_depth(x, y), DEPTH_FAR);
        }
    }
}

#[test]
fn point_write_is_idempotent() {
    let mut fb = Framebuffer::new(4, 4);
    fb.set_current_color(0x00FF00);
    fb.point(1, 2, 500, 7);
    let color = fb.get_color(1, 2);
    let depth = fb.get_depth(1, 2);
    let emission = fb.get_emission(1, 2);
    fb.point(1, 2, 500, 7);
    assert_eq!(fb.get_color(1, 2), color);
    assert_eq!(fb.get_depth(1, 2), depth);
    assert_eq!(fb.get_emission(1, 2), emission);
}

#[test]
fn depth_test_nearest_wins_either_order() {
    let mut fb1 = Framebuffer::new(4, 4);
    fb1.set_current_color(0xFF0000);
    fb1.point(2, 2, 50, 1);
    fb1.set_current_color(0x0000FF);
    fb1.point(2, 2, 60, 2);
    assert_eq!(fb1.get_color(2, 2), 0xFF0000);
    assert_eq!(fb1.get_depth(2, 2), 50);
    assert_eq!(fb1.get_emission(2, 2), 1);

    let mut fb2 = Framebuffer::new(4, 4);
    fb2.set_current_color(0x0000FF);
    fb2.point(2, 2, 60, 2);
    fb2.set_current_color(0xFF0000);
    fb2.point(2, 2, 50, 1);
    assert_eq!(fb2.get_color(2, 2), 0xFF0000);
    assert_eq!(fb2.get_depth(2, 2), 50);
    assert_eq!(fb2.get_emission(2, 2), 1);
}

#[test]
fn out_of_bounds_writes_are_dropped() {
    let mut fb = Framebuffer::new(4, 4);
    fb.set_current_color(0xFFFFFF);
    fb.point(4, 0, 10, 0);
    fb.point(0, 4, 10, 0);
    for y in 0..4 {
        for x in 0..4 {
            assert_eq!(fb.get_color(x, y), 0);
            assert_eq!(fb.get_depth(x, y), DEPTH_FAR);
        }
    }
}

#[test]
fn blur_keeps_constant_buffer_at_interior_pixels() {
    let w = 8;
    let h = 8;
    let mut buf: Vec<u32> = vec![77; w * h];
    let kernel: Vec<u32> = vec![1, 2, 1];
    gaussian_blur(&mut buf, w, h, &kernel);
    for y in 1..h - 1 {
        for x in 1..w - 1 {
            assert_eq!(buf[y * w + x], 77);
        }
    }
    // Boundary pixels lose taps but are normalized by the full kernel sum,
    // so they only deviate downward, boundedly.
    assert!(buf[0] <= 77);
    assert!(buf[0] >= 77 / 2);
}

#[test]
fn blur_single_tap_kernel_is_identity() {
    let mut buf: Vec<u32> = vec![10, 20, 30, 40];
    let kernel: Vec<u32> = vec![5];
    gaussian_blur(&mut buf, 2, 2, &kernel);
    assert_eq!(buf, vec![10, 20, 30, 40]);
}

#[test]
fn blend_bloom_exact_channels() {
    // 0.8 of 100 is 80, added to each channel.
    assert_eq!(blend_bloom(0x102030, 100), 0x607080);
    // Saturates at 255 per channel.
    assert_eq!(blend_bloom(0xF0F0F0, 100), 0xFFFFFF);
    // Zero emission leaves the color untouched.
    assert_eq!(blend_bloom(0x123456, 0), 0x123456);
}

#[test]
fn bloom_blend_is_monotonic_and_capped() {
    let base = 0x405060;
    let mut prev = (0u32, 0u32, 0u32);
    for i in 0..2000 {
        let v = blend_bloom(base, i);
        let ch = ((v >> 16) & 0xFF, (v >> 8) & 0xFF, v & 0xFF);
        assert!(ch.0 >= prev.0 && ch.1 >= prev.1 && ch.2 >= prev.2);
        assert!(ch.0 <= 255 && ch.1 <= 255 && ch.2 <= 255);
        prev = ch;
    }
}

#[test]
fn apply_bloom_skips_dark_pixels() {
    let mut colors: Vec<u32> = vec![0x101010, 0x202020, 0x303030];
    let bloom: Vec<u32> = vec![0, 100, 0];
    apply_bloom(&mut colors, &bloom, 3, 1);
    assert_eq!(colors[0], 0x101010);
    assert_eq!(colors[1], blend_bloom(0x202020, 100));
    assert_eq!(colors[2], 0x303030);
}

#[test]
fn framebuffer_bloom_pass_composes() {
    let mut fb = Framebuffer::new(4, 4);
    fb.set_current_color(0xFFFFFF);
    fb.point(1, 1, 10, 200);
    let kernel: Vec<u32> = vec![1];
    let mut em = fb.emissive_data().clone();
    gaussian_blur(&mut em, 4, 4, &kernel);
    let mut colors = fb.data().clone();
    apply_bloom(&mut colors, &em, 4, 4);
    fb.set_emissive_data(em);
    fb.set_color_data(colors);
    // 200 * 4 / 5 = 160 added onto black at the untouched pixel's neighbors
    // is zero; the lit pixel was white already and stays white.
    assert_eq!(fb.get_color(1, 1), 0xFFFFFF);
    assert_eq!(fb.get_color(0, 0), 0x000000);
    assert_eq!(fb.get_emission(1, 1), 200);
}
