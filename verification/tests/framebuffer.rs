use softrender::framebuffer::{Framebuffer, DEPTH_FAR};

#[test]
fn new_framebuffer_starts_clear() {
    let fb = Framebuffer::new(4, 3);
    assert_eq!(fb.width, 4);
    assert_eq!(fb.height, 3);
    assert_eq!(fb.buffer.len(), 12);
    assert_eq!(fb.zbuffer.len(), 12);
    assert_eq!(fb.emissive_buffer.len(), 12);
    for i in 0..12 {
        assert_eq!(fb.buffer[i], 0x000000);
        assert_eq!(fb.zbuffer[i], DEPTH_FAR);
        assert_eq!(fb.emissive_buffer[i], 0);
    }
}

#[test]
fn accepted_write_stores_depth_and_current_color() {
    let mut fb = Framebuffer::new(4, 4);
    fb.set_current_color(0xABCDEF);
    fb.point(2, 1, 5000, 7);
    let idx = 1 * 4 + 2;
    assert_eq!(fb.buffer[idx], 0xABCDEF);
    assert_eq!(fb.zbuffer[idx], 5000);
    assert_eq!(fb.emissive_buffer[idx], 7);
}

#[test]
fn farther_or_equal_write_leaves_pixel_unchanged() {
    let mut fb = Framebuffer::new(4, 4);
    fb.set_current_color(0x111111);
    fb.point(0, 0, 100, 1);
    fb.set_current_color(0x222222);
    // equal depth: strict test refuses it
    fb.point(0, 0, 100, 2);
    assert_eq!(fb.buffer[0], 0x111111);
    assert_eq!(fb.zbuffer[0], 100);
    assert_eq!(fb.emissive_buffer[0], 1);
    // farther: refused too
    fb.point(0, 0, 101, 3);
    assert_eq!(fb.buffer[0], 0x111111);
    assert_eq!(fb.zbuffer[0], 100);
    assert_eq!(fb.emissive_buffer[0], 1);
    // strictly nearer: accepted
    fb.point(0, 0, 99, 4);
    assert_eq!(fb.buffer[0], 0x222222);
    assert_eq!(fb.zbuffer[0], 99);
    assert_eq!(fb.emissive_buffer[0], 4);
}

#[test]
fn out_of_bounds_write_is_dropped() {
    let mut fb = Framebuffer::new(4, 4);
    fb.set_current_color(0xFF00FF);
    fb.point(4, 0, 1, 0);
    fb.point(0, 4, 1, 0);
    fb.point(100, 100, 1, 0);
    for i in 0..16 {
        assert_eq!(fb.buffer[i], 0x000000);
        assert_eq!(fb.zbuffer[i], DEPTH_FAR);
    }
}

#[test]
fn clear_restores_every_pixel() {
    let mut fb = Framebuffer::new(3, 3);
    fb.set_background_color(0x336699);
    fb.set_current_color(0xFFFFFF);
    for x in 0..3 {
        for y in 0..3 {
            fb.point(x, y, (x + y) as i64, 9);
        }
    }
    fb.clear();
    for i in 0..9 {
        assert_eq!(fb.buffer[i], 0x336699);
        assert_eq!(fb.zbuffer[i], DEPTH_FAR);
        assert_eq!(fb.emissive_buffer[i], 0);
    }
}

#[test]
fn nearer_write_wins_regardless_of_order() {
    // same pixel, two depths: the nearer one must determine the final
    // pixel whichever write comes first
    let mut ab = Framebuffer::new(2, 2);
    ab.set_current_color(0xAA0000);
    ab.point(1, 1, 59000, 0);
    ab.set_current_color(0x00BB00);
    ab.point(1, 1, 6500, 0);

    let mut ba = Framebuffer::new(2, 2);
    ba.set_current_color(0x00BB00);
    ba.point(1, 1, 6500, 0);
    ba.set_current_color(0xAA0000);
    ba.point(1, 1, 59000, 0);

    let idx = 1 * 2 + 1;
    assert_eq!(ab.buffer[idx], 0x00BB00);
    assert_eq!(ba.buffer[idx], 0x00BB00);
    assert_eq!(ab.zbuffer[idx], 6500);
    assert_eq!(ba.zbuffer[idx], 6500);
    assert_eq!(ab.emissive_buffer[idx], ba.emissive_buffer[idx]);
}

#[test]
fn horizontal_line_is_depth_tested() {
    let mut fb = Framebuffer::new(8, 4);
    // pre-occupy one pixel on the path with a nearer depth
    fb.set_current_color(0x0000FF);
    fb.point(3, 2, 10, 0);
    fb.set_current_color(0x00FF00);
    fb.line_with_depth(1, 2, 5, 2, 500);
    // endpoints covered at the line depth
    assert_eq!(fb.zbuffer[2 * 8 + 1], 500);
    assert_eq!(fb.zbuffer[2 * 8 + 5], 500);
    assert_eq!(fb.buffer[2 * 8 + 1], 0x00FF00);
    // the nearer pixel kept its depth and color
    assert_eq!(fb.zbuffer[2 * 8 + 3], 10);
    assert_eq!(fb.buffer[2 * 8 + 3], 0x0000FF);
    // the line forced zero emission where it wrote
    assert_eq!(fb.emissive_buffer[2 * 8 + 1], 0);
    // pixels off the segment's row are untouched
    for x in 0..8 {
        assert_eq!(fb.zbuffer[0 * 8 + x], DEPTH_FAR);
        assert_eq!(fb.zbuffer[1 * 8 + x], DEPTH_FAR);
        assert_eq!(fb.zbuffer[3 * 8 + x], DEPTH_FAR);
    }
}

#[test]
fn shallow_line_follows_the_error_accumulator_path() {
    let mut fb = Framebuffer::new(8, 8);
    fb.set_current_color(0x00FF00);
    fb.line_with_depth(0, 0, 3, 1, 7);
    let expected = [(0usize, 0usize), (1, 0), (2, 1), (3, 1)];
    for y in 0..8 {
        for x in 0..8 {
            let i = y * 8 + x;
            if expected.contains(&(x, y)) {
                assert_eq!(fb.zbuffer[i], 7);
                assert_eq!(fb.buffer[i], 0x00FF00);
            } else {
                assert_eq!(fb.zbuffer[i], DEPTH_FAR);
            }
        }
    }
}

#[test]
fn diagonal_line_covers_endpoints() {
    let mut fb = Framebuffer::new(8, 8);
    fb.set_current_color(0x123456);
    fb.line_with_depth(0, 0, 7, 7, 42);
    assert_eq!(fb.zbuffer[0], 42);
    assert_eq!(fb.zbuffer[7 * 8 + 7], 42);
    // a diagonal visits each row once
    let mut touched = 0;
    for i in 0..64 {
        if fb.zbuffer[i] != DEPTH_FAR {
            touched += 1;
            assert_eq!(fb.zbuffer[i], 42);
            assert_eq!(fb.buffer[i], 0x123456);
        }
    }
    assert_eq!(touched, 8);
}
