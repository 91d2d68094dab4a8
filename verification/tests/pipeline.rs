use rusterizer::geometry::{Mesh, Vertex};
use rusterizer::matrix::Mat4;
use rusterizer::project::shade;
use rusterizer::raster::Screen;
use rusterizer::texture::Texture;
use rusterizer::utils::{from_coords_index, from_u8_rgb};
use rusterizer::geometry::Triangle;
use rusterizer::vector::{Vec2, Vec3, Vec4};

const AMBIENT: Vec3<f32> = Vec3 { x: 0.2, y: 0.2, z: 0.2 };

fn view_dir() -> Vec3<f32> {
    Vec3 { x: 0.0, y: 0.0, z: -1.0 }
}

fn light_dir() -> Vec3<f32> {
    let n = glam::Vec3::ONE.normalize();
    Vec3 { x: n.x, y: n.y, z: n.z }
}

fn matrix(m: glam::Mat4) -> Mat4<f32> {
    Mat4::from_cols_array(&m.to_cols_array())
}

fn pack(color: Vec3<f32>) -> u32 {
    from_u8_rgb((color.x * 255.0) as u8, (color.y * 255.0) as u8, (color.z * 255.0) as u8)
}

fn raster_clipped_triangle(
    screen: &mut Screen<f32>,
    clip_triangle: &Triangle<f32>,
    texture: Option<&Texture>,
) {
    let viewport_size = Vec2 { x: screen.width as f32, y: screen.height as f32 };
    let tri = Screen::project_triangle(clip_triangle, viewport_size);
    if let Some(bb) = Screen::triangle_screen_bounding_box(&tri.positions(), viewport_size) {
        let mut pixels = Vec::new();
        for y in (bb.top as usize)..=(bb.bottom as usize) {
            for x in (bb.left as usize)..=(bb.right as usize) {
                let coords = Vec2 { x: x as f32 + 0.5, y: y as f32 + 0.5 };
                pixels.push((from_coords_index(x, y, screen.width), coords));
            }
        }
        for (pixel_id, surface) in screen.raster_pixels(&tri, &pixels) {
            let base = match texture {
                Some(tex) => {
                    let u = (surface.uv.x * tex.width as f32) as usize;
                    let v = (surface.uv.y * tex.height as f32) as usize;
                    let (r, g, b) = tex.sample_at_uv_rgb(u, v);
                    Vec3 { x: r as f32 / 255.0, y: g as f32 / 255.0, z: b as f32 / 255.0 }
                }
                None => surface.color,
            };
            let output = shade(base, surface.normal, light_dir(), AMBIENT);
            screen.set_pixel(pixel_id, pack(output));
        }
    }
}

fn raster_triangle(
    screen: &mut Screen<f32>,
    vertices: &[&Vertex<f32>; 3],
    texture: Option<&Texture>,
    mvp: &Mat4<f32>,
    model: &Mat4<f32>,
) {
    for tri in Screen::triangles_to_draw(vertices, mvp, model, view_dir()).iter() {
        raster_clipped_triangle(screen, tri, texture);
    }
}

fn raster_mesh(
    screen: &mut Screen<f32>,
    mesh: &Mesh<f32>,
    mvp: &Mat4<f32>,
    model: &Mat4<f32>,
    texture: Option<&Texture>,
) {
    for indices in mesh.get_triangles() {
        let vertices = mesh.get_vertices_from_triangle(*indices);
        raster_triangle(screen, &vertices, texture, mvp, model);
    }
}

fn corner(x: f32, y: f32, z: f32, color: (f32, f32, f32), u: f32, v: f32) -> Vertex<f32> {
    Vertex {
        position: Vec4 { x, y, z, w: 1.0 },
        color: Vec3 { x: color.0, y: color.1, z: color.2 },
        normal: Vec3 { x: 0.0, y: 0.0, z: 1.0 },
        uv: Vec2 { x: u, y: v },
    }
}

/// A quad from -half to +half at depth `z`, facing +z, in one colour.
fn quad(half: f32, z: f32, color: (f32, f32, f32)) -> Mesh<f32> {
    let vertices = [
        corner(-half, -half, z, color, 0.0, 1.0),
        corner(-half, half, z, color, 0.0, 0.0),
        corner(half, half, z, color, 1.0, 0.0),
        corner(half, -half, z, color, 1.0, 1.0),
    ];
    let triangles = [Vec3 { x: 0u32, y: 2, z: 1 }, Vec3 { x: 0u32, y: 3, z: 2 }];
    Mesh::from_vertices(&triangles, &vertices)
}

/// Camera at (0, 0, 5) looking at the origin, quarter-pi field of view,
/// square aspect ratio.
fn camera() -> Mat4<f32> {
    let proj = glam::camera::rh::proj::directx::perspective(
        std::f32::consts::PI / 4.0,
        1.0,
        0.1,
        100.0,
    );
    let eye = glam::Vec3::new(0.0, 0.0, 5.0);
    let view = glam::camera::rh::view::look_at_mat4(eye, eye + glam::Vec3::NEG_Z, glam::Vec3::Y);
    matrix(proj * view)
}

fn identity() -> Mat4<f32> {
    matrix(glam::Mat4::IDENTITY)
}

#[test]
fn quad_covers_the_centre_of_a_small_screen() {
    let mut screen = Screen::create(4, 4, f32::INFINITY);
    let mesh = quad(1.0, 0.0, (1.0, 1.0, 1.0));
    raster_mesh(&mut screen, &mesh, &camera(), &identity(), None);
    for y in 0..4usize {
        for x in 0..4usize {
            let color = screen.data[from_coords_index(x, y, 4)];
            let centre = (x == 1 || x == 2) && (y == 1 || y == 2);
            if centre {
                assert_ne!(color, 0, "pixel {} {}", x, y);
                assert!(screen.z_buffer[from_coords_index(x, y, 4)] < f32::INFINITY);
            }
        }
    }
    for &(x, y) in &[(0usize, 0usize), (3, 0), (0, 3), (3, 3)] {
        assert_eq!(screen.data[from_coords_index(x, y, 4)], 0);
        assert_eq!(screen.z_buffer[from_coords_index(x, y, 4)], f32::INFINITY);
    }
}

#[test]
fn lit_colour_of_a_flat_white_quad() {
    let mut screen = Screen::create(4, 4, f32::INFINITY);
    let mesh = quad(1.0, 0.0, (1.0, 1.0, 1.0));
    raster_mesh(&mut screen, &mesh, &camera(), &identity(), None);
    // normal (0, 0, 1) against the light (1, 1, 1) / sqrt 3, plus 0.2 ambient
    let expected = 1.0 / 3.0f32.sqrt() + 0.2;
    let level = (expected * 255.0) as i32;
    let (r, g, b) = rusterizer::utils::from_u32_u8(screen.data[from_coords_index(1, 1, 4)]);
    assert!((r as i32 - level).abs() <= 1);
    assert_eq!(r, g);
    assert_eq!(g, b);
}

#[test]
fn back_facing_triangle_changes_nothing() {
    let mut screen = Screen::create(8, 8, f32::INFINITY);
    let a = corner(-1.0, -1.0, 0.0, (1.0, 0.0, 0.0), 0.0, 0.0);
    let b = corner(1.0, 1.0, 0.0, (1.0, 0.0, 0.0), 0.0, 0.0);
    let c = corner(-1.0, 1.0, 0.0, (1.0, 0.0, 0.0), 0.0, 0.0);
    // clockwise as the camera sees it
    raster_triangle(&mut screen, &[&a, &c, &b], None, &camera(), &identity());
    assert!(screen.data.iter().all(|&p| p == 0));
    assert!(screen.z_buffer.iter().all(|&z| z == f32::INFINITY));
    // the same corners the other way round are drawn
    raster_triangle(&mut screen, &[&a, &b, &c], None, &camera(), &identity());
    assert!(screen.data.iter().any(|&p| p != 0));
}

#[test]
fn nearer_quad_wins_in_either_order() {
    let near = quad(1.0, 1.0, (1.0, 0.0, 0.0));
    let far = quad(2.0, -1.0, (0.0, 0.0, 1.0));
    let mvp = camera();

    let mut first = Screen::create(16, 16, f32::INFINITY);
    raster_mesh(&mut first, &near, &mvp, &identity(), None);
    let near_only = first.data.clone();
    raster_mesh(&mut first, &far, &mvp, &identity(), None);

    let mut second = Screen::create(16, 16, f32::INFINITY);
    raster_mesh(&mut second, &far, &mvp, &identity(), None);
    raster_mesh(&mut second, &near, &mvp, &identity(), None);

    assert_eq!(first.data, second.data);
    assert_eq!(first.z_buffer, second.z_buffer);
    let centre = from_coords_index(8, 8, 16);
    assert_ne!(near_only[centre], 0);
    assert_eq!(first.data[centre], near_only[centre]);
    // the far quad is larger: it shows around the near one
    let mut far_shows = 0;
    for i in 0..first.data.len() {
        if near_only[i] != 0 {
            assert_eq!(first.data[i], near_only[i]);
        } else if first.data[i] != 0 {
            far_shows += 1;
        }
    }
    assert!(far_shows > 0);
}

#[test]
fn clearing_and_drawing_again_gives_the_same_picture() {
    let mesh = quad(1.0, 0.0, (0.2, 0.6, 1.0));
    let other = quad(3.0, -2.0, (1.0, 1.0, 0.0));
    let mvp = camera();
    let mut screen = Screen::create(12, 12, f32::INFINITY);
    raster_mesh(&mut screen, &other, &mvp, &identity(), None);
    screen.clear();
    assert!(screen.data.iter().all(|&p| p == 0));
    assert!(screen.z_buffer.iter().all(|&z| z == f32::INFINITY));
    raster_mesh(&mut screen, &mesh, &mvp, &identity(), None);
    let once = (screen.data.clone(), screen.z_buffer.clone());
    screen.clear();
    raster_mesh(&mut screen, &mesh, &mvp, &identity(), None);
    assert_eq!(screen.data, once.0);
    assert_eq!(screen.z_buffer, once.1);
}

#[test]
fn textured_quad_shows_the_texture() {
    // a 2 x 2 texture: red, green / blue, white
    let bytes = [255u8, 0, 0, 0, 255, 0, 0, 0, 255, 255, 255, 255];
    let texture = Texture::from_rgb8(2, 2, 3, &bytes);
    let mut screen = Screen::create(8, 8, f32::INFINITY);
    let mesh = quad(1.0, 0.0, (1.0, 1.0, 1.0));
    raster_mesh(&mut screen, &mesh, &camera(), &identity(), Some(&texture));
    // uv (0, 0) is the top left corner of the quad
    let (r, g, b) = rusterizer::utils::from_u32_u8(screen.data[from_coords_index(3, 3, 8)]);
    assert!(r > g && g == b);
    let (r, g, b) = rusterizer::utils::from_u32_u8(screen.data[from_coords_index(4, 3, 8)]);
    assert!(g > r && r == b);
    let (r, g, b) = rusterizer::utils::from_u32_u8(screen.data[from_coords_index(3, 4, 8)]);
    assert!(b > r && r == g);
    let (r, g, b) = rusterizer::utils::from_u32_u8(screen.data[from_coords_index(4, 4, 8)]);
    assert!(r == g && g == b && r > 51);
}

#[test]
fn triangle_across_the_near_plane_is_drawn_in_part() {
    // a large floor-like triangle that reaches behind the camera
    let a = corner(-1.0, -1.0, 0.0, (1.0, 1.0, 1.0), 0.0, 0.0);
    let b = corner(1.0, -1.0, 0.0, (1.0, 1.0, 1.0), 0.0, 0.0);
    let c = corner(0.0, 0.5, 20.0, (1.0, 1.0, 1.0), 0.0, 0.0);
    let mut screen = Screen::create(16, 16, f32::INFINITY);
    let mvp = camera();
    let clip = Screen::clip_space_triangle(&[&a, &b, &c], &mvp, &identity());
    assert!(clip.v2.position.z < 0.0);
    assert!(clip.v0.position.z >= 0.0 && clip.v1.position.z >= 0.0);
    raster_triangle(&mut screen, &[&a, &b, &c], None, &mvp, &identity());
    assert!(screen.data.iter().any(|&p| p != 0));
    assert!(screen.z_buffer.iter().all(|z| !z.is_nan()));
}

#[test]
fn triangles_to_draw_lists_what_clipping_leaves() {
    let mvp = camera();
    let a = corner(-1.0, -1.0, 0.0, (1.0, 1.0, 1.0), 0.0, 0.0);
    let b = corner(1.0, -1.0, 0.0, (1.0, 1.0, 1.0), 0.0, 0.0);
    let c = corner(0.0, 1.0, 0.0, (1.0, 1.0, 1.0), 0.0, 0.0);
    let whole = Screen::triangles_to_draw(&[&a, &b, &c], &mvp, &identity(), view_dir());
    assert_eq!(whole.len(), 1);
    assert_eq!(whole[0], Screen::clip_space_triangle(&[&a, &b, &c], &mvp, &identity()));
    // the same corners the other way round: a back face
    let back = Screen::triangles_to_draw(&[&a, &c, &b], &mvp, &identity(), view_dir());
    assert!(back.is_empty());
    // one corner behind the camera: two triangles
    let behind = corner(0.0, 0.5, 20.0, (1.0, 1.0, 1.0), 0.0, 0.0);
    let cut = Screen::triangles_to_draw(&[&a, &b, &behind], &mvp, &identity(), view_dir());
    assert_eq!(cut.len(), 2);
    assert_eq!(cut[0].v0, cut[1].v0);
    // two corners behind the camera: one triangle
    let far_a = corner(-1.0, -1.0, 20.0, (1.0, 1.0, 1.0), 0.0, 0.0);
    let far_b = corner(1.0, -1.0, 20.0, (1.0, 1.0, 1.0), 0.0, 0.0);
    let front = corner(0.0, 0.5, 0.0, (1.0, 1.0, 1.0), 0.0, 0.0);
    let tip = Screen::triangles_to_draw(&[&far_a, &far_b, &front], &mvp, &identity(), view_dir());
    assert_eq!(tip.len(), 1);
    assert_eq!(tip[0].v2.position.z, Screen::clip_space_triangle(&[&far_a, &far_b, &front], &mvp, &identity()).v2.position.z);
}
