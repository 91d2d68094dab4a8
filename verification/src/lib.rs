//! A software triangle rasterizer: clip-space transform, culling, near-plane
//! clipping, perspective-correct coverage and depth-tested drawing into a
//! colour buffer, all on the CPU.
//!
//! A triangle of a [`geometry::Mesh`] takes this way to the screen:
//!
//! 1. [`raster::Screen::clip_space_triangle`] transforms its vertices into
//!    clip space.
//! 2. [`raster::Screen::clip_cull_triangle`] drops it if it is a back face
//!    or outside the view volume, and cuts it at the near plane.
//!    [`raster::Screen::triangles_to_draw`] does both steps and lists what
//!    is left.
//! 3. [`raster::Screen::project_triangle`] divides by `w` and maps what is
//!    left to the screen; [`raster::Screen::triangle_screen_bounding_box`]
//!    gives the pixels worth looking at.
//! 4. [`raster::Screen::raster_pixels`] takes the triangle through the
//!    pixels of that box: for each pixel centre it tests coverage and depth
//!    and hands back the attributes of the surface where the triangle
//!    shows; [`project::shade`] lights them, and
//!    [`raster::Screen::set_pixel`] writes the colour.
//!
//! Everything is generic over the number type ([`scalar::Scalar`]); the
//! caller brings the numbers, and turns positions into whole pixels and
//! colours into bytes. The contracts hold for number types whose operators
//! are exact and lawful, on inputs that divide without remainder
//! ([`scalar::lawful`], [`scalar::divides_exactly`]).
// Each module builds on those above it.
pub mod scalar;
pub mod vector;
pub mod matrix;
pub mod geometry;
pub mod utils;
pub mod texture;
pub mod raster;
pub mod clip;
pub mod project;
