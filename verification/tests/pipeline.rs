use softrender::framebuffer::{Framebuffer, DEPTH_FAR};
use softrender::render::{render, render_orbit_lines, ORBIT_DEPTH};
use softrender::shaders::{Uniforms, vertex_shader, fragment_shader,
    time_based_color_cycling_shader, SHADER_FLAT, SHADER_LIT, SHADER_TIME_CYCLING};
use softrender::raster::triangle;
use softrender::transforms::{create_model_matrix, create_view_matrix,
    create_perspective_matrix, create_viewport_matrix, create_ortho_projection,
    viewport_unmap, unproject_to_clip, RotSinCos};
use softrender::frustum::Frustum;
use softrender::vecmat::{V2, V3, V4, M4, m4_identity, m4_mul, m4_apply};
use softrender::vertex::{Vertex, Fragment};
use softrender::color::Color;
use softrender::fixed::{fx_div, FX_ONE};
use softrender::camera::Camera;

const F: i64 = 65536;

fn vert(x: i64, y: i64, z: i64) -> Vertex {
    Vertex {
        position: V3 { x, y, z },
        normal: V3 { x: 0, y: 0, z: F },
        tex_coords: V2 { x: 0, y: 0 },
        color: 0,
        transformed_position: V3 { x: 0, y: 0, z: 0 },
        transformed_normal: V3 { x: 0, y: 0, z: 0 },
    }
}

fn identity_uniforms(shader: u8, base_color: u32) -> Uniforms {
    Uniforms {
        model_matrix: m4_identity(),
        view_matrix: m4_identity(),
        projection_matrix: m4_identity(),
        viewport_matrix: m4_identity(),
        time: 0,
        base_color,
        current_shader: shader,
    }
}

#[test]
fn unit_triangle_covers_exactly_the_inside_pixel_centers() {
    // screen-space unit triangle at depth 0.5 on a blank 4x4 framebuffer
    // with a constant white shader: only the pixel whose center (0.5, 0.5)
    // falls inside (on the inclusive hypotenuse) is set
    let mut fb = Framebuffer::new(4, 4);
    let uniforms = identity_uniforms(SHADER_FLAT, 0xFFFFFF);
    let verts = vec![vert(0, 0, F / 2), vert(F, 0, F / 2), vert(0, F, F / 2)];
    render(&mut fb, &uniforms, &verts, false);
    for y in 0..4 {
        for x in 0..4 {
            let i = y * 4 + x;
            if x == 0 && y == 0 {
                assert_eq!(fb.buffer[i], 0xFFFFFF);
                assert_eq!(fb.zbuffer[i], F / 2);
            } else {
                assert_eq!(fb.buffer[i], 0x000000);
                assert_eq!(fb.zbuffer[i], DEPTH_FAR);
            }
            assert_eq!(fb.emissive_buffer[i], 0);
        }
    }
}

fn big_triangle(depth: i64) -> Vec<Vertex> {
    // covers the whole 4x4 grid
    vec![
        vert(-4 * F, -4 * F, depth),
        vert(12 * F, -4 * F, depth),
        vert(-4 * F, 12 * F, depth),
    ]
}

#[test]
fn nearer_triangle_wins_regardless_of_submission_order() {
    // two overlapping triangles: the first at depth 0.9 with color A, the
    // second at depth 0.1 with color B; either order shows B
    let near = F / 10;
    let far = 9 * F / 10;
    let mut ab = Framebuffer::new(4, 4);
    render(&mut ab, &identity_uniforms(SHADER_FLAT, 0xAAAA00), &big_triangle(far), false);
    render(&mut ab, &identity_uniforms(SHADER_FLAT, 0x00BBBB), &big_triangle(near), false);
    let mut ba = Framebuffer::new(4, 4);
    render(&mut ba, &identity_uniforms(SHADER_FLAT, 0x00BBBB), &big_triangle(near), false);
    render(&mut ba, &identity_uniforms(SHADER_FLAT, 0xAAAA00), &big_triangle(far), false);
    for i in 0..16 {
        assert_eq!(ab.buffer[i], 0x00BBBB);
        assert_eq!(ba.buffer[i], 0x00BBBB);
        assert_eq!(ab.zbuffer[i], near);
        assert_eq!(ba.zbuffer[i], near);
    }
}

#[test]
fn back_facing_triangles_are_culled_unless_disabled() {
    // reversed winding: negative area
    let verts = vec![vert(0, 0, F / 2), vert(0, F, F / 2), vert(F, 0, F / 2)];
    let mut culled = Framebuffer::new(4, 4);
    render(&mut culled, &identity_uniforms(SHADER_FLAT, 0xFFFFFF), &verts, false);
    for i in 0..16 {
        assert_eq!(culled.buffer[i], 0x000000);
        assert_eq!(culled.zbuffer[i], DEPTH_FAR);
    }
    let mut drawn = Framebuffer::new(4, 4);
    render(&mut drawn, &identity_uniforms(SHADER_FLAT, 0xFFFFFF), &verts, true);
    assert_eq!(drawn.buffer[0], 0xFFFFFF);
}

#[test]
fn empty_vertex_buffer_changes_nothing() {
    let mut fb = Framebuffer::new(4, 4);
    render(&mut fb, &identity_uniforms(SHADER_FLAT, 0xFFFFFF), &Vec::new(), false);
    for i in 0..16 {
        assert_eq!(fb.buffer[i], 0x000000);
        assert_eq!(fb.zbuffer[i], DEPTH_FAR);
    }
}

#[test]
fn degenerate_triangle_covers_nothing() {
    // three collinear vertices: zero area, no fragments either way
    let verts = vec![vert(0, 0, F / 2), vert(F, F, F / 2), vert(2 * F, 2 * F, F / 2)];
    let mut fb = Framebuffer::new(4, 4);
    render(&mut fb, &identity_uniforms(SHADER_FLAT, 0xFFFFFF), &verts, false);
    render(&mut fb, &identity_uniforms(SHADER_FLAT, 0xFFFFFF), &verts, true);
    for i in 0..16 {
        assert_eq!(fb.zbuffer[i], DEPTH_FAR);
    }
}

#[test]
fn trailing_partial_triple_is_dropped() {
    let verts = vec![
        vert(0, 0, F / 2), vert(F, 0, F / 2), vert(0, F, F / 2),
        vert(0, 0, F / 4), vert(F, 0, F / 4), // incomplete triangle
    ];
    let mut fb = Framebuffer::new(4, 4);
    render(&mut fb, &identity_uniforms(SHADER_FLAT, 0x123456), &verts, false);
    assert_eq!(fb.zbuffer[0], F / 2); // from the complete triangle only
}

#[test]
fn lit_shader_modulates_by_interpolated_intensity() {
    // flat normals (0, 0, 1): unit normal dotted with the light direction
    // gives 59280/65536, so white scales to 230 per channel
    let v0 = vertex_shader(&vert(0, 0, F / 2), &identity_uniforms(SHADER_LIT, 0xFFFFFF));
    let v1 = vertex_shader(&vert(F, 0, F / 2), &identity_uniforms(SHADER_LIT, 0xFFFFFF));
    let v2 = vertex_shader(&vert(0, F, F / 2), &identity_uniforms(SHADER_LIT, 0xFFFFFF));
    let frags = triangle(&v0, &v1, &v2, false, 4, 4);
    assert_eq!(frags.len(), 1);
    assert_eq!(frags[0].x, 0);
    assert_eq!(frags[0].y, 0);
    assert_eq!(frags[0].depth, F / 2);
    assert_eq!(frags[0].intensity, 59280);
    let c = fragment_shader(&frags[0], &identity_uniforms(SHADER_LIT, 0xFFFFFF));
    assert_eq!(c, Color::new(230, 230, 230));
}

#[test]
fn vertex_shader_with_identity_transforms_is_the_identity() {
    let u = identity_uniforms(SHADER_FLAT, 0);
    let v = vert(3 * F, -2 * F, F);
    let s = vertex_shader(&v, &u);
    assert_eq!(s.transformed_position, V3 { x: 3 * F, y: -2 * F, z: F });
    assert_eq!(s.transformed_normal, v.normal);
    assert_eq!(s.position, v.position);
}

#[test]
fn time_cycling_shader_blends_the_palette() {
    let frag = Fragment {
        x: 0,
        y: 0,
        depth: 0,
        vertex_position: V3 { x: 0, y: 0, z: 0 },
        normal: V3 { x: 0, y: 0, z: F },
        intensity: F,
    };
    let mut u = identity_uniforms(SHADER_TIME_CYCLING, 0);
    u.time = 0;
    assert_eq!(time_based_color_cycling_shader(&frag, &u), Color::new(255, 0, 0));
    u.time = 50;
    // halfway from red to green, truncating toward zero per channel
    assert_eq!(time_based_color_cycling_shader(&frag, &u), Color::new(128, 127, 0));
    u.time = 100;
    assert_eq!(time_based_color_cycling_shader(&frag, &u), Color::new(0, 255, 0));
    u.time = 600;
    assert_eq!(time_based_color_cycling_shader(&frag, &u), Color::new(255, 0, 0));
}

fn scene_matrices() -> (M4, M4, M4) {
    let view = create_view_matrix(
        V3 { x: 0, y: 80 * F, z: -200 * F },
        V3 { x: 0, y: 0, z: 0 },
        V3 { x: 0, y: F, z: 0 },
    );
    let projection = create_perspective_matrix(800 * F, 700 * F);
    let viewport = create_viewport_matrix(800 * F, 700 * F);
    (view, projection, viewport)
}

#[test]
fn sphere_at_the_look_at_target_is_visible() {
    let (view, projection, _) = scene_matrices();
    let vp = m4_mul(&projection, &view);
    let frustum = Frustum::from_matrix(&vp);
    assert!(frustum.contains(V3 { x: 0, y: 0, z: 0 }, 14 * F));
}

#[test]
fn sphere_behind_the_camera_is_culled() {
    let (view, projection, _) = scene_matrices();
    let vp = m4_mul(&projection, &view);
    let frustum = Frustum::from_matrix(&vp);
    // well behind the eye along the viewing axis
    assert!(!frustum.contains(V3 { x: 0, y: 200 * F, z: -500 * F }, F));
    // far beyond the far plane
    assert!(!frustum.contains(V3 { x: 0, y: 0, z: 5000 * F }, F));
}

#[test]
fn screen_to_clip_round_trip_stays_within_tolerance() {
    let (view, projection, viewport) = scene_matrices();
    let model = create_model_matrix(
        V3 { x: 2 * F, y: 0, z: 3 * F },
        2 * F,
        RotSinCos { cos_x: F, sin_x: 0, cos_y: F, sin_y: 0, cos_z: F, sin_z: 0 },
    );
    let samples = [
        V3 { x: 10 * F, y: 5 * F, z: 0 },
        V3 { x: -7 * F, y: 2 * F, z: 4 * F },
        V3 { x: 0, y: -12 * F, z: -3 * F },
    ];
    for p in samples {
        let world = m4_apply(&model, V4 { x: p.x, y: p.y, z: p.z, w: F });
        let seen = m4_apply(&view, world);
        let clip = m4_apply(&projection, seen);
        let ndc = V3 {
            x: fx_div(clip.x, clip.w),
            y: fx_div(clip.y, clip.w),
            z: fx_div(clip.z, clip.w),
        };
        let screen = m4_apply(&viewport, V4 { x: ndc.x, y: ndc.y, z: ndc.z, w: F });
        // back through the inverse viewport and the perspective multiply
        let ndc_back = viewport_unmap(800 * F, 700 * F, V3 { x: screen.x, y: screen.y, z: screen.z });
        let tol_ndc = 8; // a fraction of a thousandth in fixed point
        assert!((ndc_back.x - ndc.x).abs() <= tol_ndc);
        assert!((ndc_back.y - ndc.y).abs() <= tol_ndc);
        assert_eq!(ndc_back.z, ndc.z);
        let clip_back = unproject_to_clip(ndc_back, clip.w);
        // scaled back by w: tolerate rounding from the two divisions
        let tol_clip = clip.w.abs() / 1000 + 2;
        assert!((clip_back.x - clip.x).abs() <= tol_clip);
        assert!((clip_back.y - clip.y).abs() <= tol_clip);
        assert!((clip_back.z - clip.z).abs() <= tol_clip);
    }
}

#[test]
fn ortho_projection_maps_window_corners_to_clip_corners() {
    // power-of-two dimensions make the fixed-point scale factors exact
    let ortho = create_ortho_projection(1024 * F, 512 * F);
    let tl = m4_apply(&ortho, V4 { x: 0, y: 0, z: 0, w: F });
    assert_eq!((tl.x, tl.y), (-F, F));
    let br = m4_apply(&ortho, V4 { x: 1024 * F, y: 512 * F, z: 0, w: F });
    assert_eq!((br.x, br.y), (F, -F));
}

#[test]
fn orbit_lines_write_at_the_orbit_depth() {
    let mut fb = Framebuffer::new(16, 16);
    let mut u = identity_uniforms(SHADER_FLAT, 0);
    // place the circle in the upper-left quadrant of the grid
    u.viewport_matrix = create_viewport_matrix(16 * F, 16 * F);
    let points = vec![
        V2 { x: F, y: 0 },
        V2 { x: 0, y: F },
        V2 { x: -F, y: 0 },
        V2 { x: 0, y: -F },
    ];
    render_orbit_lines(&mut fb, F / 2, &Color::new(100, 100, 100), &points, &u);
    assert_eq!(fb.current_color, Color::new(100, 100, 100).to_hex());
    let mut touched = 0;
    for i in 0..256 {
        if fb.zbuffer[i] != DEPTH_FAR {
            assert_eq!(fb.zbuffer[i], ORBIT_DEPTH);
            assert_eq!(fb.buffer[i], Color::new(100, 100, 100).to_hex());
            assert_eq!(fb.emissive_buffer[i], 0);
            touched += 1;
        }
    }
    assert!(touched > 0);
}

#[test]
fn camera_view_matrix_feeds_the_frustum() {
    // an end-to-end gate: after zooming in, the look-at target stays visible
    let mut cam = Camera::new(
        V3 { x: 0, y: 80 * F, z: -200 * F },
        V3 { x: 0, y: 0, z: 0 },
        V3 { x: 0, y: F, z: 0 },
    );
    cam.zoom(50 * F, 100 * F);
    let view = create_view_matrix(cam.eye, cam.center, cam.up);
    let projection = create_perspective_matrix(800 * F, 700 * F);
    let vp = m4_mul(&projection, &view);
    let frustum = Frustum::from_matrix(&vp);
    assert!(frustum.contains(cam.center, 14 * F));
}
