use rusterizer::project::{project_vertex, shade};
use rusterizer::raster::{Fragment, Screen};
use rusterizer::geometry::{Triangle, Vertex};
use rusterizer::vector::{Vec2, Vec3, Vec4};

#[test]
fn new_screen_is_black_and_empty() {
    let screen = Screen::create(3, 2, f32::INFINITY);
    assert_eq!(screen.width, 3);
    assert_eq!(screen.height, 2);
    assert_eq!(screen.data, vec![0u32; 6]);
    assert_eq!(screen.z_buffer, vec![f32::INFINITY; 6]);
    let none: Screen<f32> = Screen::create(0, 7, 1.0);
    assert!(none.data.is_empty() && none.z_buffer.is_empty());
}

#[test]
fn depth_test_is_strict() {
    let mut screen = Screen::create(2, 2, f32::INFINITY);
    assert!(screen.test_depth(1, 0.5));
    assert_eq!(screen.z_buffer[1], 0.5);
    // equal depth: what was drawn first stays
    assert!(!screen.test_depth(1, 0.5));
    assert!(!screen.test_depth(1, 0.75));
    assert_eq!(screen.z_buffer[1], 0.5);
    assert!(screen.test_depth(1, 0.25));
    assert_eq!(screen.z_buffer[1], 0.25);
    // a depth that is not a number never passes
    assert!(!screen.test_depth(0, f32::NAN));
    assert_eq!(screen.z_buffer[0], f32::INFINITY);
    assert_eq!(screen.data, vec![0u32; 4]);
}

#[test]
fn fragments_are_drawn_nearest_first_wins() {
    let a = Fragment { pixel_id: 2, depth: 0.25f32, color: 0xff0000 };
    let b = Fragment { pixel_id: 2, depth: 0.5f32, color: 0x0000ff };
    let mut one = Screen::create(2, 2, f32::INFINITY);
    assert!(one.draw_fragment(a));
    assert!(!one.draw_fragment(b));
    let mut two = Screen::create(2, 2, f32::INFINITY);
    assert!(two.draw_fragment(b));
    assert!(two.draw_fragment(a));
    assert_eq!(one.data, vec![0, 0, 0xff0000, 0]);
    assert_eq!(one.data, two.data);
    assert_eq!(one.z_buffer, two.z_buffer);

    let mut batch = Screen::create(2, 2, f32::INFINITY);
    let equal = Fragment { pixel_id: 2, depth: 0.25f32, color: 0x00ff00 };
    let other = Fragment { pixel_id: 0, depth: 3.0f32, color: 0x123456 };
    batch.draw_fragments(&[b, a, equal, other]);
    assert_eq!(batch.data, vec![0x123456, 0, 0xff0000, 0]);
    assert_eq!(batch.z_buffer, vec![3.0, f32::INFINITY, 0.25, f32::INFINITY]);

    batch.clear();
    assert_eq!(batch.data, vec![0u32; 4]);
    assert_eq!(batch.z_buffer, vec![f32::INFINITY; 4]);
}

#[test]
fn integer_depths_work_too() {
    let mut screen: Screen<i32> = Screen::create(1, 1, i32::MAX);
    assert!(screen.draw_fragment(Fragment { pixel_id: 0, depth: 10, color: 1 }));
    assert!(!screen.draw_fragment(Fragment { pixel_id: 0, depth: 10, color: 2 }));
    assert!(screen.draw_fragment(Fragment { pixel_id: 0, depth: -3, color: 3 }));
    assert_eq!(screen.data, vec![3]);
}

#[test]
fn bounding_box_is_clamped_to_the_screen() {
    let viewport = Vec2 { x: 8.0f32, y: 4.0 };
    let inside = [
        Vec2 { x: 1.5f32, y: 0.5 },
        Vec2 { x: 6.0f32, y: 3.0 },
        Vec2 { x: 2.0f32, y: 2.5 },
    ];
    let bb = Screen::triangle_screen_bounding_box(&inside, viewport).unwrap();
    assert_eq!((bb.left, bb.right, bb.top, bb.bottom), (1.5, 6.0, 0.5, 3.0));

    let partly = [
        Vec2 { x: -3.0f32, y: -2.0 },
        Vec2 { x: 12.0f32, y: 1.0 },
        Vec2 { x: 2.0f32, y: 9.0 },
    ];
    let bb = Screen::triangle_screen_bounding_box(&partly, viewport).unwrap();
    assert_eq!((bb.left, bb.right, bb.top, bb.bottom), (0.0, 7.0, 0.0, 3.0));

    let shift = |dx: f32, dy: f32| {
        [
            Vec2 { x: 1.0 + dx, y: 1.0 + dy },
            Vec2 { x: 2.0 + dx, y: 1.0 + dy },
            Vec2 { x: 1.0 + dx, y: 2.0 + dy },
        ]
    };
    assert!(Screen::triangle_screen_bounding_box(&shift(7.0, 0.0), viewport).is_none());
    assert!(Screen::triangle_screen_bounding_box(&shift(-3.0, 0.0), viewport).is_none());
    assert!(Screen::triangle_screen_bounding_box(&shift(0.0, 3.0), viewport).is_none());
    assert!(Screen::triangle_screen_bounding_box(&shift(0.0, -3.0), viewport).is_none());
    assert!(Screen::triangle_screen_bounding_box(&shift(0.0, 0.0), viewport).is_some());
}

fn clip_vertex(x: f32, y: f32, z: f32, w: f32) -> Vertex<f32> {
    Vertex {
        position: Vec4 { x, y, z, w },
        color: Vec3 { x: 1.0, y: 0.5, z: 0.0 },
        normal: Vec3 { x: 0.0, y: 2.0, z: 4.0 },
        uv: Vec2 { x: 1.0, y: 3.0 },
    }
}

#[test]
fn perspective_divide_and_viewport_mapping() {
    let viewport = Vec2 { x: 8.0f32, y: 4.0 };
    let p = project_vertex(&clip_vertex(1.0, 1.0, 1.0, 2.0), viewport);
    assert_eq!(p.rec, 0.5);
    assert_eq!(p.vertex.position, Vec4 { x: 0.5, y: 0.5, z: 0.5, w: 1.0 });
    // the attributes are multiplied by 1 / w as well
    assert_eq!(p.vertex.color, Vec3 { x: 0.5, y: 0.25, z: 0.0 });
    assert_eq!(p.vertex.normal, Vec3 { x: 0.0, y: 1.0, z: 2.0 });
    assert_eq!(p.vertex.uv, Vec2 { x: 0.5, y: 1.5 });
    // x = 0.5 is three quarters across; y = 0.5 is a quarter down: y is flipped
    assert_eq!(p.screen, Vec2 { x: 6.0, y: 1.0 });
    let corner = project_vertex(&clip_vertex(-2.0, 2.0, 0.0, 2.0), viewport);
    assert_eq!(corner.screen, Vec2 { x: 0.0, y: 0.0 });
    let centre = project_vertex(&clip_vertex(0.0, 0.0, 0.0, 5.0), viewport);
    assert_eq!(centre.screen, Vec2 { x: 4.0, y: 2.0 });
}

#[test]
fn attributes_are_corrected_for_perspective() {
    let viewport = Vec2 { x: 8.0f32, y: 8.0 };
    let mut near = clip_vertex(-1.0, -1.0, 0.5, 1.0);
    near.uv = Vec2 { x: 0.0, y: 0.0 };
    let mut far = clip_vertex(4.0, -4.0, 3.0, 4.0);
    far.uv = Vec2 { x: 1.0, y: 0.0 };
    let mut top = clip_vertex(-1.0, 1.0, 0.5, 1.0);
    top.uv = Vec2 { x: 0.0, y: 1.0 };
    let tri = Screen::project_triangle(&Triangle::create(near, far, top), viewport);
    assert_eq!(tri.positions()[0], Vec2 { x: 0.0, y: 8.0 });
    assert_eq!(tri.positions()[1], Vec2 { x: 8.0, y: 8.0 });

    // at a corner the attributes are those of the corner
    let at_far = tri.attributes_at(Vec3 { x: 0.0, y: 1.0, z: 0.0 });
    assert_eq!(at_far.uv, Vec2 { x: 1.0, y: 0.0 });
    assert_eq!(at_far.color, Vec3 { x: 1.0, y: 0.5, z: 0.0 });
    assert_eq!(tri.depth_at(Vec3 { x: 0.0, y: 1.0, z: 0.0 }), 0.75);

    // half way on the screen between w = 1 and w = 4 is not half way on the
    // triangle: 1 / w is 0.625 there, so u = (0.5 * 0.25) / 0.625 = 0.2
    let half = tri.attributes_at(Vec3 { x: 0.5, y: 0.5, z: 0.0 });
    assert!((half.uv.x - 0.2).abs() < 1e-6);
    assert_eq!(half.uv.y, 0.0);
    // the colour is the same at all corners and so everywhere
    assert!((half.color.x - 1.0).abs() < 1e-6);
    assert!((half.color.y - 0.5).abs() < 1e-6);
    // depth is interpolated on the screen: (0.5 + 0.75) / 2
    assert_eq!(tri.depth_at(Vec3 { x: 0.5, y: 0.5, z: 0.0 }), 0.625);

    // coverage at a pixel centre inside and outside
    assert!(tri.weights_at(Vec2 { x: 1.5, y: 6.5 }).is_some());
    assert!(tri.weights_at(Vec2 { x: 7.5, y: 0.5 }).is_none());
}

#[test]
fn shading_scales_by_the_light_and_adds_ambient() {
    let base = Vec3 { x: 1.0f32, y: 0.5, z: 0.0 };
    let normal = Vec3 { x: 0.0f32, y: 0.0, z: 2.0 };
    let light = Vec3 { x: 0.5f32, y: 0.5, z: 0.25 };
    let ambient = Vec3 { x: 0.2f32, y: 0.2, z: 0.2 };
    let lit = shade(base, normal, light, ambient);
    assert_eq!(lit, Vec3 { x: 0.7, y: 0.45, z: 0.2 });
    assert_eq!(normal.dot(light), 0.5);
    assert_eq!(
        Vec3 { x: 1.0f32, y: 0.0, z: 0.0 }.cross(Vec3 { x: 0.0, y: 1.0, z: 0.0 }),
        Vec3 { x: 0.0, y: 0.0, z: 1.0 }
    );
}

#[test]
fn fragment_shows_where_it_is_covered_and_nearer() {
    let viewport = Vec2 { x: 4.0f32, y: 4.0 };
    let tri = Screen::project_triangle(
        &Triangle::create(
            clip_vertex(-1.0, -1.0, 0.5, 1.0),
            clip_vertex(1.0, -1.0, 0.5, 1.0),
            clip_vertex(-1.0, 1.0, 0.5, 1.0),
        ),
        viewport,
    );
    let mut screen = Screen::create(4, 4, f32::INFINITY);
    // pixel (0, 3) lies in the lower left corner, inside the triangle
    let inside = Vec2 { x: 0.5f32, y: 3.5 };
    let surface = screen.raster_fragment(&tri, 12, inside).unwrap();
    assert!((surface.color.x - 1.0).abs() < 1e-6);
    assert!((surface.normal.z - 4.0).abs() < 1e-5);
    assert_eq!(screen.z_buffer[12], 0.5);
    // the colour buffer is left to the caller
    assert_eq!(screen.data[12], 0);
    // the same fragment again is not nearer
    assert!(screen.raster_fragment(&tri, 12, inside).is_none());
    // pixel (3, 0) lies outside the triangle
    assert!(screen.raster_fragment(&tri, 3, Vec2 { x: 3.5, y: 0.5 }).is_none());
    assert_eq!(screen.z_buffer[3], f32::INFINITY);
}

#[test]
fn pixels_come_back_where_the_triangle_shows() {
    let viewport = Vec2 { x: 4.0f32, y: 4.0 };
    let tri = Screen::project_triangle(
        &Triangle::create(
            clip_vertex(-1.0, -1.0, 0.5, 1.0),
            clip_vertex(1.0, -1.0, 0.5, 1.0),
            clip_vertex(-1.0, 1.0, 0.5, 1.0),
        ),
        viewport,
    );
    let mut screen = Screen::create(4, 4, f32::INFINITY);
    // pixel 12 is inside, pixel 3 outside; pixel 12 a second time is not nearer
    let pixels = [
        (12usize, Vec2 { x: 0.5f32, y: 3.5 }),
        (3usize, Vec2 { x: 3.5f32, y: 0.5 }),
        (12usize, Vec2 { x: 0.5f32, y: 3.5 }),
        (8usize, Vec2 { x: 0.5f32, y: 2.5 }),
    ];
    let shown = screen.raster_pixels(&tri, &pixels);
    assert_eq!(shown.len(), 2);
    assert_eq!(shown[0].0, 12);
    assert_eq!(shown[1].0, 8);
    assert!((shown[0].1.color.x - 1.0).abs() < 1e-6);
    assert_eq!(screen.z_buffer[12], 0.5);
    assert_eq!(screen.z_buffer[8], 0.5);
    assert_eq!(screen.z_buffer[3], f32::INFINITY);
    assert!(screen.data.iter().all(|&p| p == 0));
    assert!(screen.raster_pixels(&tri, &[]).is_empty());
}

#[test]
fn vertex_is_scaled_in_place() {
    let mut v = clip_vertex(1.0, 2.0, 3.0, 4.0);
    v.mul_assign(0.5);
    assert_eq!(v.position, Vec4 { x: 0.5, y: 1.0, z: 1.5, w: 2.0 });
    assert_eq!(v.color, Vec3 { x: 0.5, y: 0.25, z: 0.0 });
    assert_eq!(v.uv, Vec2 { x: 0.5, y: 1.5 });
}
