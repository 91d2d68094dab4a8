use rusterizer::geometry::{Triangle, Vertex};
use rusterizer::clip::ClipResult;
use rusterizer::raster::Screen;
use rusterizer::utils::edge_function;
use rusterizer::vector::{Vec2, Vec3, Vec4};

fn vertex(x: f32, y: f32, z: f32, w: f32) -> Vertex<f32> {
    Vertex {
        position: Vec4 { x, y, z, w },
        color: Vec3 { x: x.abs(), y: y.abs(), z: 0.5 },
        normal: Vec3 { x: 0.0, y: 0.0, z: 1.0 },
        uv: Vec2 { x, y },
    }
}

fn view_dir() -> Vec3<f32> {
    Vec3 { x: 0.0, y: 0.0, z: -1.0 }
}

/// Counter-clockwise in x/y: its normal points along +z, against the view.
fn front_facing(z0: f32, z1: f32, z2: f32) -> Triangle<f32> {
    Triangle::create(
        vertex(-1.0, -1.0, z0, 4.0),
        vertex(1.0, -1.0, z1, 4.0),
        vertex(0.0, 1.0, z2, 4.0),
    )
}

fn area_xy(t: &Triangle<f32>) -> f32 {
    (edge_function(t.v0.position.xy(), t.v1.position.xy(), t.v2.position.xy()) * 0.5).abs()
}

#[test]
fn triangle_in_front_passes_unchanged() {
    let t = front_facing(1.0, 2.0, 3.0);
    match Screen::clip_cull_triangle(&t, view_dir()) {
        ClipResult::One(out) => assert_eq!(out, t),
        _ => panic!("expected one triangle"),
    }
}

#[test]
fn triangle_behind_the_near_plane_is_dropped() {
    let t = front_facing(-1.0, -2.0, -0.5);
    assert!(Screen::view_frustum_culling(&t));
    assert!(matches!(Screen::clip_cull_triangle(&t, view_dir()), ClipResult::Zero));
}

#[test]
fn back_face_is_dropped() {
    let front = front_facing(1.0, 1.0, 1.0);
    assert!(!Screen::cull_triangle_backface(&front, view_dir()));
    let back = Triangle::create(front.v0, front.v2, front.v1);
    assert!(Screen::cull_triangle_backface(&back, view_dir()));
    assert!(matches!(Screen::clip_cull_triangle(&back, view_dir()), ClipResult::Zero));
}

#[test]
fn edge_on_triangle_is_dropped() {
    let t = Triangle::create(
        vertex(0.0, 0.0, 1.0, 4.0),
        vertex(1.0, 1.0, 1.0, 4.0),
        vertex(2.0, 2.0, 2.0, 4.0),
    );
    assert!(Screen::cull_triangle_backface(&t, view_dir()));
}

#[test]
fn frustum_culling_needs_all_three_beyond_one_plane() {
    let right = Triangle::create(
        vertex(5.0, 0.0, 1.0, 4.0),
        vertex(6.0, 0.0, 1.0, 4.0),
        vertex(5.0, 1.0, 1.0, 4.0),
    );
    assert!(Screen::view_frustum_culling(&right));
    let left = Triangle::create(
        vertex(-5.0, 0.0, 1.0, 4.0),
        vertex(-6.0, 0.0, 1.0, 4.0),
        vertex(-5.0, 1.0, 1.0, 4.0),
    );
    assert!(Screen::view_frustum_culling(&left));
    let above = Triangle::create(
        vertex(0.0, 5.0, 1.0, 4.0),
        vertex(1.0, 6.0, 1.0, 4.0),
        vertex(0.0, 7.0, 1.0, 4.0),
    );
    assert!(Screen::view_frustum_culling(&above));
    let below = Triangle::create(
        vertex(0.0, -5.0, 1.0, 4.0),
        vertex(1.0, -6.0, 1.0, 4.0),
        vertex(0.0, -7.0, 1.0, 4.0),
    );
    assert!(Screen::view_frustum_culling(&below));
    let far = Triangle::create(
        vertex(0.0, 0.0, 5.0, 4.0),
        vertex(1.0, 0.0, 6.0, 4.0),
        vertex(0.0, 1.0, 7.0, 4.0),
    );
    assert!(Screen::view_frustum_culling(&far));
    // two vertices beyond the right plane, one inside: kept
    let straddling = Triangle::create(
        vertex(5.0, 0.0, 1.0, 4.0),
        vertex(6.0, 0.0, 1.0, 4.0),
        vertex(0.0, 1.0, 1.0, 4.0),
    );
    assert!(!Screen::view_frustum_culling(&straddling));
    // each vertex beyond a different plane: kept
    let mixed = Triangle::create(
        vertex(5.0, 0.0, 1.0, 4.0),
        vertex(0.0, 5.0, 1.0, 4.0),
        vertex(0.0, 0.0, 5.0, 4.0),
    );
    assert!(!Screen::view_frustum_culling(&mixed));
}

#[test]
fn clip_triangle_two_cuts_at_the_plane() {
    // v0 behind at z = -1, the others at z = 3 and z = 1
    let t = Triangle::create(
        vertex(0.0, 0.0, -1.0, 1.0),
        vertex(4.0, 0.0, 3.0, 1.0),
        vertex(0.0, 4.0, 1.0, 1.0),
    );
    let (a, b) = Screen::clip_triangle_two(&t);
    // alpha = 1 / 4 on the first edge, 1 / 2 on the second
    assert_eq!(a.v0.position, Vec4 { x: 1.0, y: 0.0, z: 0.0, w: 1.0 });
    assert_eq!(a.v1, t.v1);
    assert_eq!(a.v2, t.v2);
    assert_eq!(b.v0, a.v0);
    assert_eq!(b.v1.position, Vec4 { x: 0.0, y: 2.0, z: 0.0, w: 1.0 });
    assert_eq!(b.v2, t.v2);
    // attributes are blended with the same alpha as the position
    assert_eq!(a.v0.uv, Vec2 { x: 1.0, y: 0.0 });
    assert_eq!(b.v1.uv, Vec2 { x: 0.0, y: 2.0 });
    assert_eq!(a.v0.color, Vec3 { x: 1.0, y: 0.0, z: 0.5 });
}

#[test]
fn clip_triangle_one_cuts_at_the_plane() {
    // v0 and v1 behind, v2 in front
    let t = Triangle::create(
        vertex(0.0, 0.0, -1.0, 1.0),
        vertex(4.0, 0.0, -3.0, 1.0),
        vertex(0.0, 4.0, 1.0, 1.0),
    );
    let out = Screen::clip_triangle_one(&t);
    assert_eq!(out.v0.position, Vec4 { x: 0.0, y: 2.0, z: 0.0, w: 1.0 });
    assert_eq!(out.v1.position, Vec4 { x: 1.0, y: 3.0, z: 0.0, w: 1.0 });
    assert_eq!(out.v2, t.v2);
}

#[test]
fn one_vertex_behind_gives_two_triangles_that_fill_the_visible_part() {
    for behind in 0..3 {
        let mut z = [2.0f32, 2.0, 2.0];
        z[behind] = -2.0;
        let t = front_facing(z[0], z[1], z[2]);
        let (a, b) = match Screen::clip_cull_triangle(&t, view_dir()) {
            ClipResult::Two(pair) => pair,
            _ => panic!("expected two triangles"),
        };
        for v in [a.v0, a.v1, a.v2, b.v0, b.v1, b.v2] {
            assert!(v.position.z >= 0.0);
        }
        // the two share an edge: the crossing and one front vertex
        assert_eq!(a.v0, b.v0);
        assert_eq!(a.v2, b.v2);
        // The plane cuts both edges at their middle, so the corner that is
        // cut off has a quarter of the area; three quarters stay visible.
        let whole = area_xy(&t);
        let sum = area_xy(&a) + area_xy(&b);
        assert!((sum - 0.75 * whole).abs() < 1e-5);
    }
}

#[test]
fn two_vertices_behind_give_one_triangle() {
    for front in 0..3 {
        let mut z = [-2.0f32, -2.0, -2.0];
        z[front] = 2.0;
        let t = front_facing(z[0], z[1], z[2]);
        let out = match Screen::clip_cull_triangle(&t, view_dir()) {
            ClipResult::One(out) => out,
            _ => panic!("expected one triangle"),
        };
        let kept = [t.v0, t.v1, t.v2][front];
        assert_eq!(out.v2, kept);
        assert_eq!(out.v0.position.z, 0.0);
        assert_eq!(out.v1.position.z, 0.0);
        assert!((area_xy(&out) - 0.25 * area_xy(&t)).abs() < 1e-5);
    }
}
