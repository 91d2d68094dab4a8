//! From clip space to the screen: the transformation of mesh vertices, the
//! perspective divide, the viewport mapping, and the interpolation and
//! lighting of what lies under one pixel.
use crate::geometry::{Triangle, Vertex};
use crate::matrix::Mat4;
use crate::raster::{Screen, ScreenView};
use crate::clip::{none_behind, ClipResult};
use crate::scalar::{
    divides_exactly, exact, lawful, less, one, spec_one, spec_zero, zero, Scalar,
};
use crate::utils::{
    barycentric_coordinates, barycentric_defined, blend, blend_defined, cofactor,
    cofactor_defined, edge_function, edge_function_defined, lemma_reciprocal_undone,
    map_to_range, map_to_range_exact,
    spec_barycentric_coordinates, spec_blend, spec_cofactor, spec_edge_function,
    spec_map_to_range,
};
use crate::vector::{Vec2, Vec3};
use core::ops::Neg;
use vstd::prelude::*;
use vstd::std_specs::convert::FromSpec;
use vstd::std_specs::ops::{AddSpec, DivSpec, MulSpec, NegSpec};

verus! {

/// A vertex after the perspective divide.
#[derive(Clone, Copy, Debug, PartialEq)]
pub struct ScreenVertex<S> {
    /// Position and attributes, each multiplied by `rec`; the position is
    /// in normalized device coordinates.
    pub vertex: Vertex<S>,
    /// `1 / w` of the clip-space position.
    pub rec: S,
    /// Where the vertex falls on the screen, in pixels from the top left.
    pub screen: Vec2<S>,
}

/// A clipped triangle, ready to be sampled pixel by pixel.
#[derive(Clone, Copy, Debug, PartialEq)]
pub struct ScreenTriangle<S> {
    pub v0: ScreenVertex<S>,
    pub v1: ScreenVertex<S>,
    pub v2: ScreenVertex<S>,
}

/// The attributes of the surface under one pixel, corrected for
/// perspective.
#[derive(Clone, Copy, Debug, PartialEq)]
pub struct Attributes<S> {
    pub normal: Vec3<S>,
    pub color: Vec3<S>,
    pub uv: Vec2<S>,
}

/// The number minus one.
pub open spec fn spec_minus_one<S: Scalar>() -> S {
    S::from_spec(-1i8)
}

/// The vertex divided by its `w`, and its place on a screen of
/// `viewport_size` pixels: `x` in `-1..1` goes to `0..width`, `y` to
/// `0..height` with the top of the view volume at row zero.
pub open spec fn spec_project_vertex<S: Scalar>(
    v: Vertex<S>,
    viewport_size: Vec2<S>,
) -> ScreenVertex<S> {
    let rec = spec_one::<S>().div_spec(v.position.w);
    let vertex = MulSpec::mul_spec(v, rec);
    ScreenVertex {
        vertex,
        rec,
        screen: Vec2 {
            x: spec_map_to_range(
                vertex.position.x,
                spec_minus_one::<S>(),
                spec_one::<S>(),
                spec_zero::<S>(),
                viewport_size.x,
            ),
            y: spec_map_to_range(
                vertex.position.y.neg_spec(),
                spec_minus_one::<S>(),
                spec_one::<S>(),
                spec_zero::<S>(),
                viewport_size.y,
            ),
        },
    }
}

/// The vertex can be projected: the reciprocal of its `w` and the two
/// divisions of the viewport mapping are exact, and no step leaves the range
/// of `S`.
pub open spec fn project_vertex_defined<S: Scalar>(v: Vertex<S>, viewport_size: Vec2<S>) -> bool {
    let rec = spec_one::<S>().div_spec(v.position.w);
    let vertex = MulSpec::mul_spec(v, rec);
    &&& divides_exactly(spec_one::<S>(), v.position.w)
    &&& MulSpec::mul_req(v, rec)
    &&& vertex.position.y.neg_req()
    &&& map_to_range_exact(
        vertex.position.x,
        spec_minus_one::<S>(),
        spec_one::<S>(),
        spec_zero::<S>(),
        viewport_size.x,
    )
    &&& map_to_range_exact(
        vertex.position.y.neg_spec(),
        spec_minus_one::<S>(),
        spec_one::<S>(),
        spec_zero::<S>(),
        viewport_size.y,
    )
}

/// `quotient` is `dividend / divisor`, as far as a product can show it:
/// where the product of the two exists, it is the dividend.
pub open spec fn is_quotient<S: Scalar>(quotient: S, dividend: S, divisor: S) -> bool {
    quotient.mul_req(divisor) ==> quotient.mul_spec(divisor) == dividend
}

/// Divides a clip-space vertex by its `w` and maps it to the screen. The
/// attributes are multiplied by `1 / w` like the position, so that they can
/// be interpolated linearly on the screen.
///
/// What comes out is the divided position: its `w` is one, and each of
/// `x`, `y`, `z` times the `w` of the vertex is what it was before. Only an
/// exact reciprocal is admitted.
pub fn project_vertex<S: Scalar>(v: &Vertex<S>, viewport_size: Vec2<S>) -> (r: ScreenVertex<S>)
    requires
        lawful::<S>(),
        project_vertex_defined(*v, viewport_size),
    ensures
        r == spec_project_vertex(*v, viewport_size),
        r.vertex.position.w == spec_one::<S>(),
        is_quotient(r.vertex.position.x, v.position.x, v.position.w),
        is_quotient(r.vertex.position.y, v.position.y, v.position.w),
        is_quotient(r.vertex.position.z, v.position.z, v.position.w),
{
    let rec = one::<S>() / v.position.w;
    let vertex = *v * rec;
    let minus_one = S::from(-1i8);
    let screen = Vec2 {
        x: map_to_range(vertex.position.x, minus_one, one(), zero(), viewport_size.x),
        y: map_to_range(vertex.position.y.neg(), minus_one, one(), zero(), viewport_size.y),
    };
    proof {
        let w = v.position.w;
        assert(vertex.position.w == w.mul_spec(rec));
        if vertex.position.x.mul_req(w) {
            lemma_reciprocal_undone(v.position.x, w);
        }
        if vertex.position.y.mul_req(w) {
            lemma_reciprocal_undone(v.position.y, w);
        }
        if vertex.position.z.mul_req(w) {
            lemma_reciprocal_undone(v.position.z, w);
        }
    }
    ScreenVertex { vertex, rec, screen }
}

impl<S: Scalar> ScreenTriangle<S> {
    /// The three screen positions.
    pub open spec fn spec_positions(self) -> Seq<Vec2<S>> {
        seq![self.v0.screen, self.v1.screen, self.v2.screen]
    }

    /// The three screen positions.
    pub fn positions(&self) -> (r: [Vec2<S>; 3])
        ensures
            r@ == self.spec_positions(),
    {
        let r = [self.v0.screen, self.v1.screen, self.v2.screen];
        assert(r@ =~= self.spec_positions());
        r
    }

    /// The signed area of the triangle on the screen, as the edge function
    /// of its first corner against the edge between the other two gives it.
    pub open spec fn spec_area(self) -> S {
        spec_edge_function(self.v0.screen, self.v1.screen, self.v2.screen)
    }

    /// The weights of the point `coords` where the triangle covers it.
    pub open spec fn spec_weights_at(self, coords: Vec2<S>) -> Option<Vec3<S>> {
        spec_barycentric_coordinates(
            coords,
            self.v0.screen,
            self.v1.screen,
            self.v2.screen,
            self.spec_area(),
        )
    }

    /// No step of the coverage test at `coords` leaves the range of `S`.
    pub open spec fn weights_at_defined(self, coords: Vec2<S>) -> bool {
        &&& edge_function_defined(self.v0.screen, self.v1.screen, self.v2.screen)
        &&& barycentric_defined(
            coords,
            self.v0.screen,
            self.v1.screen,
            self.v2.screen,
            self.spec_area(),
        )
    }

    /// Tests whether the triangle covers the point `coords` of the screen,
    /// and returns the barycentric weights of the point where it does. A
    /// point on an edge is covered; a triangle without area covers nothing.
    pub fn weights_at(&self, coords: Vec2<S>) -> (r: Option<Vec3<S>>)
        requires
            lawful::<S>(),
            self.weights_at_defined(coords),
        ensures
            r == self.spec_weights_at(coords),
    {
        let area = edge_function(self.v0.screen, self.v1.screen, self.v2.screen);
        barycentric_coordinates(coords, self.v0.screen, self.v1.screen, self.v2.screen, area)
    }

    /// The depth under a point with the given weights: the weighted sum of
    /// the three depths in normalized device coordinates.
    pub open spec fn spec_depth_at(self, weights: Vec3<S>) -> S {
        spec_blend(
            self.v0.vertex.position.z,
            self.v1.vertex.position.z,
            self.v2.vertex.position.z,
            weights,
        )
    }

    /// No step of interpolating the depth leaves the range of `S`.
    pub open spec fn depth_at_defined(self, weights: Vec3<S>) -> bool {
        blend_defined(
            self.v0.vertex.position.z,
            self.v1.vertex.position.z,
            self.v2.vertex.position.z,
            weights,
        )
    }

    /// Interpolates the depth under a covered point.
    pub fn depth_at(&self, weights: Vec3<S>) -> (r: S)
        requires
            exact::<S>(),
            self.depth_at_defined(weights),
        ensures
            r == self.spec_depth_at(weights),
    {
        blend(
            self.v0.vertex.position.z,
            self.v1.vertex.position.z,
            self.v2.vertex.position.z,
            weights,
        )
    }

    /// The factor that undoes the division by `w`: one over the weighted
    /// sum of the three `1 / w`.
    pub open spec fn spec_correction(self, weights: Vec3<S>) -> S {
        spec_one::<S>().div_spec(spec_blend(self.v0.rec, self.v1.rec, self.v2.rec, weights))
    }

    /// The attributes under a point with the given weights: the weighted
    /// sum of the divided attributes, times the correction factor.
    pub open spec fn spec_attributes_at(self, weights: Vec3<S>) -> Attributes<S> {
        let correction = self.spec_correction(weights);
        Attributes {
            normal: spec_blend(
                self.v0.vertex.normal,
                self.v1.vertex.normal,
                self.v2.vertex.normal,
                weights,
            ).mul_spec(correction),
            color: spec_blend(
                self.v0.vertex.color,
                self.v1.vertex.color,
                self.v2.vertex.color,
                weights,
            ).mul_spec(correction),
            uv: spec_blend(
                self.v0.vertex.uv,
                self.v1.vertex.uv,
                self.v2.vertex.uv,
                weights,
            ).mul_spec(correction),
        }
    }

    /// The attributes can be interpolated: the correction factor is an
    /// exact reciprocal, and no step leaves the range of `S`.
    pub open spec fn attributes_at_defined(self, weights: Vec3<S>) -> bool {
        let correction = self.spec_correction(weights);
        &&& blend_defined(self.v0.rec, self.v1.rec, self.v2.rec, weights)
        &&& divides_exactly(
            spec_one::<S>(),
            spec_blend(self.v0.rec, self.v1.rec, self.v2.rec, weights),
        )
        &&& blend_defined(
            self.v0.vertex.normal,
            self.v1.vertex.normal,
            self.v2.vertex.normal,
            weights,
        )
        &&& spec_blend(
            self.v0.vertex.normal,
            self.v1.vertex.normal,
            self.v2.vertex.normal,
            weights,
        ).mul_req(correction)
        &&& blend_defined(
            self.v0.vertex.color,
            self.v1.vertex.color,
            self.v2.vertex.color,
            weights,
        )
        &&& spec_blend(
            self.v0.vertex.color,
            self.v1.vertex.color,
            self.v2.vertex.color,
            weights,
        ).mul_req(correction)
        &&& blend_defined(self.v0.vertex.uv, self.v1.vertex.uv, self.v2.vertex.uv, weights)
        &&& spec_blend(self.v0.vertex.uv, self.v1.vertex.uv, self.v2.vertex.uv, weights).mul_req(
            correction,
        )
    }

    /// Interpolates normal, colour and texture coordinate under a covered
    /// point, corrected for perspective. The normal is not normalized.
    pub fn attributes_at(&self, weights: Vec3<S>) -> (r: Attributes<S>)
        requires
            exact::<S>(),
            self.attributes_at_defined(weights),
        ensures
            r == self.spec_attributes_at(weights),
    {
        let correction = one::<S>() / blend(self.v0.rec, self.v1.rec, self.v2.rec, weights);
        let normal = blend(
            self.v0.vertex.normal,
            self.v1.vertex.normal,
            self.v2.vertex.normal,
            weights,
        ) * correction;
        let color = blend(self.v0.vertex.color, self.v1.vertex.color, self.v2.vertex.color, weights)
            * correction;
        let uv = blend(self.v0.vertex.uv, self.v1.vertex.uv, self.v2.vertex.uv, weights)
            * correction;
        Attributes { normal, color, uv }
    }
}

/// The lit colour: `base * (normal . light_dir) + ambient`.
pub open spec fn spec_shade<S: Scalar>(
    base: Vec3<S>,
    normal: Vec3<S>,
    light_dir: Vec3<S>,
    ambient: Vec3<S>,
) -> Vec3<S> {
    base.mul_spec(normal.spec_dot(light_dir)).add_spec(ambient)
}

/// No step of the lighting leaves the range of `S`.
pub open spec fn shade_defined<S: Scalar>(
    base: Vec3<S>,
    normal: Vec3<S>,
    light_dir: Vec3<S>,
    ambient: Vec3<S>,
) -> bool {
    &&& normal.dot_defined(light_dir)
    &&& base.mul_req(normal.spec_dot(light_dir))
    &&& base.mul_spec(normal.spec_dot(light_dir)).add_req(ambient)
}

/// Lights a base colour: it is scaled by the dot product of the surface
/// normal and the direction to the light, and the ambient colour is added.
pub fn shade<S: Scalar>(
    base: Vec3<S>,
    normal: Vec3<S>,
    light_dir: Vec3<S>,
    ambient: Vec3<S>,
) -> (r: Vec3<S>)
    requires
        exact::<S>(),
        shade_defined(base, normal, light_dir, ambient),
    ensures
        r == spec_shade(base, normal, light_dir, ambient),
{
    let n_dot_l = normal.dot(light_dir);
    base * n_dot_l + ambient
}

impl<S: Scalar> Screen<S> {
    /// The three vertices of a clipped triangle after the perspective
    /// divide, each with its place on the screen.
    pub open spec fn spec_project_triangle(
        clip_triangle: Triangle<S>,
        viewport_size: Vec2<S>,
    ) -> ScreenTriangle<S> {
        ScreenTriangle {
            v0: spec_project_vertex(clip_triangle.v0, viewport_size),
            v1: spec_project_vertex(clip_triangle.v1, viewport_size),
            v2: spec_project_vertex(clip_triangle.v2, viewport_size),
        }
    }

    /// No step of projecting the three vertices leaves the range of `S`.
    pub open spec fn project_triangle_defined(
        clip_triangle: Triangle<S>,
        viewport_size: Vec2<S>,
    ) -> bool {
        &&& project_vertex_defined(clip_triangle.v0, viewport_size)
        &&& project_vertex_defined(clip_triangle.v1, viewport_size)
        &&& project_vertex_defined(clip_triangle.v2, viewport_size)
    }

    /// Brings a clipped clip-space triangle to the screen: perspective
    /// divide of positions and attributes, then the viewport mapping.
    pub fn project_triangle(clip_triangle: &Triangle<S>, viewport_size: Vec2<S>) -> (r:
        ScreenTriangle<S>)
        requires
            lawful::<S>(),
            Self::project_triangle_defined(*clip_triangle, viewport_size),
        ensures
            r == Self::spec_project_triangle(*clip_triangle, viewport_size),
    {
        ScreenTriangle {
            v0: project_vertex(&clip_triangle.v0, viewport_size),
            v1: project_vertex(&clip_triangle.v1, viewport_size),
            v2: project_vertex(&clip_triangle.v2, viewport_size),
        }
    }

    /// The normal as a direction (fourth number zero), transformed by
    /// `matrix`.
    pub open spec fn spec_transform_normal(matrix: Mat4<S>, normal: Vec3<S>) -> Vec3<S> {
        matrix.spec_mul_vec4(normal.spec_extend(spec_zero::<S>())).spec_xyz()
    }

    /// The triangle of the three vertices in clip space: positions
    /// transformed as points by `mvp`, normals as directions by the
    /// cofactor matrix of `model`; colours and texture coordinates stay.
    pub open spec fn spec_clip_space_triangle(
        v0: Vertex<S>,
        v1: Vertex<S>,
        v2: Vertex<S>,
        mvp: Mat4<S>,
        model: Mat4<S>,
    ) -> Triangle<S> {
        let moved = (Triangle { v0, v1, v2 }).spec_transform(mvp);
        let cof_model = spec_cofactor(model);
        Triangle {
            v0: Vertex {
                normal: Self::spec_transform_normal(cof_model, moved.v0.normal),
                ..moved.v0
            },
            v1: Vertex {
                normal: Self::spec_transform_normal(cof_model, moved.v1.normal),
                ..moved.v1
            },
            v2: Vertex {
                normal: Self::spec_transform_normal(cof_model, moved.v2.normal),
                ..moved.v2
            },
        }
    }

    /// No step of the two transformations leaves the range of `S`.
    pub open spec fn clip_space_triangle_defined(
        v0: Vertex<S>,
        v1: Vertex<S>,
        v2: Vertex<S>,
        mvp: Mat4<S>,
        model: Mat4<S>,
    ) -> bool {
        let cof_model = spec_cofactor(model);
        &&& cofactor_defined(model)
        &&& (Triangle { v0, v1, v2 }).transform_defined(mvp)
        &&& cof_model.mul_vec4_defined(v0.normal.spec_extend(spec_zero::<S>()))
        &&& cof_model.mul_vec4_defined(v1.normal.spec_extend(spec_zero::<S>()))
        &&& cof_model.mul_vec4_defined(v2.normal.spec_extend(spec_zero::<S>()))
    }

    /// Transforms three vertices of a mesh into a clip-space triangle.
    /// `mvp` is the product of projection, view and model matrix; `model`
    /// alone carries the normals into world space.
    pub fn clip_space_triangle(vertices: &[&Vertex<S>; 3], mvp: &Mat4<S>, model: &Mat4<S>) -> (r:
        Triangle<S>)
        requires
            exact::<S>(),
            Self::clip_space_triangle_defined(
                *vertices[0],
                *vertices[1],
                *vertices[2],
                *mvp,
                *model,
            ),
        ensures
            r == Self::spec_clip_space_triangle(
                *vertices[0],
                *vertices[1],
                *vertices[2],
                *mvp,
                *model,
            ),
    {
        let cof_model = cofactor(model);
        let triangle = Triangle { v0: *vertices[0], v1: *vertices[1], v2: *vertices[2] };
        let mut clip_tri = triangle.transform(mvp);
        clip_tri.v0.normal = cof_model.mul_vec4(clip_tri.v0.normal.extend(zero())).xyz();
        clip_tri.v1.normal = cof_model.mul_vec4(clip_tri.v1.normal.extend(zero())).xyz();
        clip_tri.v2.normal = cof_model.mul_vec4(clip_tri.v2.normal.extend(zero())).xyz();
        clip_tri
    }

    /// What shows of the triangle at one pixel: the attributes of its
    /// surface there, where the triangle covers the pixel centre `coords`
    /// and is nearer than what the pixel holds; nothing otherwise.
    pub open spec fn spec_raster_fragment(
        screen: ScreenView<S>,
        triangle: ScreenTriangle<S>,
        pixel_id: int,
        coords: Vec2<S>,
    ) -> Option<Attributes<S>> {
        match triangle.spec_weights_at(coords) {
            Some(weights) => if screen.passes(pixel_id, triangle.spec_depth_at(weights)) {
                Some(triangle.spec_attributes_at(weights))
            } else {
                None
            },
            None => None,
        }
    }

    /// The screen after the triangle was tested at one pixel: where the
    /// triangle covers the pixel centre, the depth buffer went through the
    /// depth test of the fragment; the colours stay.
    pub open spec fn spec_after_fragment(
        screen: ScreenView<S>,
        triangle: ScreenTriangle<S>,
        pixel_id: int,
        coords: Vec2<S>,
    ) -> ScreenView<S> {
        match triangle.spec_weights_at(coords) {
            Some(weights) => screen.tested(pixel_id, triangle.spec_depth_at(weights)),
            None => screen,
        }
    }

    /// No step that the fragment needs leaves the range of `S`: the
    /// coverage test always, the depth where the pixel is covered, the
    /// attributes where the fragment passes the depth test.
    pub open spec fn raster_fragment_defined(
        screen: ScreenView<S>,
        triangle: ScreenTriangle<S>,
        pixel_id: int,
        coords: Vec2<S>,
    ) -> bool {
        &&& triangle.weights_at_defined(coords)
        &&& match triangle.spec_weights_at(coords) {
            Some(weights) => {
                &&& triangle.depth_at_defined(weights)
                &&& screen.passes(pixel_id, triangle.spec_depth_at(weights))
                    ==> triangle.attributes_at_defined(weights)
            },
            None => true,
        }
    }

    /// Takes the triangle through one pixel, whose centre is `coords`:
    /// coverage, depth, depth test. Where the fragment shows, its depth is
    /// recorded and the attributes of the surface come back, for the caller
    /// to shade and to write with [`Screen::set_pixel`].
    pub fn raster_fragment(
        &mut self,
        triangle: &ScreenTriangle<S>,
        pixel_id: usize,
        coords: Vec2<S>,
    ) -> (r: Option<Attributes<S>>)
        requires
            lawful::<S>(),
            pixel_id < old(self).z_buffer@.len(),
            Self::raster_fragment_defined(old(self)@, *triangle, pixel_id as int, coords),
        ensures
            r == Self::spec_raster_fragment(old(self)@, *triangle, pixel_id as int, coords),
            final(self)@ == Self::spec_after_fragment(
                old(self)@,
                *triangle,
                pixel_id as int,
                coords,
            ),
    {
        match triangle.weights_at(coords) {
            Some(weights) => {
                let depth = triangle.depth_at(weights);
                if self.test_depth(pixel_id, depth) {
                    Some(triangle.attributes_at(weights))
                } else {
                    None
                }
            },
            None => None,
        }
    }

    /// The screen after the triangle was taken through one pixel and, where
    /// it shows there, the pixel was painted with `color`: what
    /// [`Screen::raster_fragment`] followed by [`Screen::set_pixel`] leaves.
    pub open spec fn spec_fragment_painted(
        screen: ScreenView<S>,
        triangle: ScreenTriangle<S>,
        pixel_id: int,
        coords: Vec2<S>,
        color: u32,
    ) -> ScreenView<S> {
        let tested = Self::spec_after_fragment(screen, triangle, pixel_id, coords);
        if Self::spec_raster_fragment(screen, triangle, pixel_id, coords) is Some {
            tested.painted(pixel_id, color)
        } else {
            tested
        }
    }

    /// Testing a fragment and then painting it where it shows is drawing
    /// it: where the triangle covers the pixel centre with weights `w`, the
    /// screen ends as if the fragment of that depth and colour had been
    /// drawn; where it does not, the screen stays.
    pub proof fn lemma_fragment_painted_is_drawn(
        screen: ScreenView<S>,
        triangle: ScreenTriangle<S>,
        pixel_id: int,
        coords: Vec2<S>,
        color: u32,
    )
        ensures
            Self::spec_raster_fragment(screen, triangle, pixel_id, coords) is Some
                ==> Self::spec_after_fragment(screen, triangle, pixel_id, coords).painted(
                pixel_id,
                color,
            ) == screen.drawn(
                pixel_id,
                triangle.spec_depth_at(triangle.spec_weights_at(coords)->0),
                color,
            ),
            triangle.spec_weights_at(coords) is Some ==> Self::spec_fragment_painted(
                screen,
                triangle,
                pixel_id,
                coords,
                color,
            ) == screen.drawn(
                pixel_id,
                triangle.spec_depth_at(triangle.spec_weights_at(coords)->0),
                color,
            ),
            triangle.spec_weights_at(coords) is None ==> Self::spec_fragment_painted(
                screen,
                triangle,
                pixel_id,
                coords,
                color,
            ) == screen,
    {
    }

    /// Of two triangles that cover the same pixel centre, the one that is
    /// nearer there shows, whichever is rendered first: if `a` is strictly
    /// nearer than `b` and than what the pixel holds, depth and colour of
    /// the pixel end as those of `a` in both orders.
    pub proof fn lemma_nearer_triangle_wins(
        screen: ScreenView<S>,
        a: ScreenTriangle<S>,
        b: ScreenTriangle<S>,
        pixel_id: int,
        coords: Vec2<S>,
        color_a: u32,
        color_b: u32,
    )
        requires
            0 <= pixel_id < screen.z_buffer.len(),
            pixel_id < screen.data.len(),
            a.spec_weights_at(coords) is Some,
            b.spec_weights_at(coords) is Some,
            less(
                a.spec_depth_at(a.spec_weights_at(coords)->0),
                b.spec_depth_at(b.spec_weights_at(coords)->0),
            ),
            !less(
                b.spec_depth_at(b.spec_weights_at(coords)->0),
                a.spec_depth_at(a.spec_weights_at(coords)->0),
            ),
            screen.passes(pixel_id, a.spec_depth_at(a.spec_weights_at(coords)->0)),
        ensures
            ({
                let depth_a = a.spec_depth_at(a.spec_weights_at(coords)->0);
                let a_then_b = Self::spec_fragment_painted(
                    Self::spec_fragment_painted(screen, a, pixel_id, coords, color_a),
                    b,
                    pixel_id,
                    coords,
                    color_b,
                );
                let b_then_a = Self::spec_fragment_painted(
                    Self::spec_fragment_painted(screen, b, pixel_id, coords, color_b),
                    a,
                    pixel_id,
                    coords,
                    color_a,
                );
                &&& a_then_b.data[pixel_id] == color_a
                &&& b_then_a.data[pixel_id] == color_a
                &&& a_then_b.z_buffer[pixel_id] == depth_a
                &&& b_then_a.z_buffer[pixel_id] == depth_a
            }),
    {
    }

    /// A frame depends on the cleared screen and on what is rendered, and
    /// on nothing before: two screens of the same size and far depth, once
    /// cleared, end equal when the same triangle is taken through the same
    /// pixel and painted with the same colour.
    pub proof fn lemma_cleared_screens_render_alike(
        first: ScreenView<S>,
        second: ScreenView<S>,
        triangle: ScreenTriangle<S>,
        pixel_id: int,
        coords: Vec2<S>,
        color: u32,
    )
        requires
            first.width == second.width,
            first.height == second.height,
            first.far == second.far,
            first.data.len() == second.data.len(),
            first.z_buffer.len() == second.z_buffer.len(),
        ensures
            Self::spec_raster_fragment(first.cleared(), triangle, pixel_id, coords)
                == Self::spec_raster_fragment(second.cleared(), triangle, pixel_id, coords),
            Self::spec_fragment_painted(first.cleared(), triangle, pixel_id, coords, color)
                == Self::spec_fragment_painted(second.cleared(), triangle, pixel_id, coords, color),
    {
        Self::lemma_clear_forgets(first, second, Seq::empty());
    }

    /// The clip-space triangles that are left to draw of three vertices of
    /// a mesh: none, one or two.
    pub open spec fn spec_triangles_to_draw(result: ClipResult<S>) -> Seq<Triangle<S>> {
        match result {
            ClipResult::Zero => Seq::empty(),
            ClipResult::One(triangle) => seq![triangle],
            ClipResult::Two(pair) => seq![pair.0, pair.1],
        }
    }

    /// Transforms three vertices of a mesh into clip space, culls and clips
    /// the triangle, and lists what is left to draw, in drawing order. No
    /// triangle of the list has a vertex behind the near plane.
    pub fn triangles_to_draw(
        vertices: &[&Vertex<S>; 3],
        mvp: &Mat4<S>,
        model: &Mat4<S>,
        view_dir: Vec3<S>,
    ) -> (r: Vec<Triangle<S>>)
        requires
            lawful::<S>(),
            Self::clip_space_triangle_defined(
                *vertices[0],
                *vertices[1],
                *vertices[2],
                *mvp,
                *model,
            ),
            Self::clip_cull_triangle_defined(
                Self::spec_clip_space_triangle(
                    *vertices[0],
                    *vertices[1],
                    *vertices[2],
                    *mvp,
                    *model,
                ),
                view_dir,
            ),
        ensures
            r@ == Self::spec_triangles_to_draw(
                Self::spec_clip_cull_triangle(
                    Self::spec_clip_space_triangle(
                        *vertices[0],
                        *vertices[1],
                        *vertices[2],
                        *mvp,
                        *model,
                    ),
                    view_dir,
                ),
            ),
            forall|i: int| 0 <= i < r@.len() ==> none_behind(#[trigger] r@[i]),
    {
        let clip_tri = Self::clip_space_triangle(vertices, mvp, model);
        let mut r: Vec<Triangle<S>> = Vec::new();
        match Self::clip_cull_triangle(&clip_tri, view_dir) {
            ClipResult::Zero => {},
            ClipResult::One(tri) => {
                r.push(tri);
            },
            ClipResult::Two(tri) => {
                r.push(tri.0);
                r.push(tri.1);
            },
        }
        assert(r@ =~= Self::spec_triangles_to_draw(
            Self::spec_clip_cull_triangle(clip_tri, view_dir),
        ));
        r
    }

    /// Nothing is left to draw of a back face.
    pub proof fn lemma_back_face_draws_nothing(triangle: Triangle<S>, view_dir: Vec3<S>)
        requires
            Self::spec_cull_triangle_backface(triangle, view_dir),
        ensures
            Self::spec_clip_cull_triangle(triangle, view_dir) is Zero,
            Self::spec_triangles_to_draw(Self::spec_clip_cull_triangle(triangle, view_dir)).len()
                == 0,
    {
    }

    /// The screen after the triangle was taken through the pixels one
    /// after the other, first to last.
    pub open spec fn spec_after_pixels(
        screen: ScreenView<S>,
        triangle: ScreenTriangle<S>,
        pixels: Seq<(usize, Vec2<S>)>,
    ) -> ScreenView<S>
        decreases pixels.len(),
    {
        if pixels.len() == 0 {
            screen
        } else {
            Self::spec_after_fragment(
                Self::spec_after_pixels(screen, triangle, pixels.drop_last()),
                triangle,
                pixels.last().0 as int,
                pixels.last().1,
            )
        }
    }

    /// The fragments of the triangle that show at the pixels, each with
    /// its pixel, in the order of the pixels.
    pub open spec fn spec_raster_pixels(
        screen: ScreenView<S>,
        triangle: ScreenTriangle<S>,
        pixels: Seq<(usize, Vec2<S>)>,
    ) -> Seq<(usize, Attributes<S>)>
        decreases pixels.len(),
    {
        if pixels.len() == 0 {
            Seq::empty()
        } else {
            let before = Self::spec_raster_pixels(screen, triangle, pixels.drop_last());
            match Self::spec_raster_fragment(
                Self::spec_after_pixels(screen, triangle, pixels.drop_last()),
                triangle,
                pixels.last().0 as int,
                pixels.last().1,
            ) {
                Some(surface) => before.push((pixels.last().0, surface)),
                None => before,
            }
        }
    }

    /// Every pixel is on the screen, and every fragment can be computed on
    /// the screen as the pixels before it leave it.
    pub open spec fn raster_pixels_defined(
        screen: ScreenView<S>,
        triangle: ScreenTriangle<S>,
        pixels: Seq<(usize, Vec2<S>)>,
    ) -> bool {
        forall|i: int|
            0 <= i < pixels.len() ==> {
                &&& (#[trigger] pixels[i]).0 < screen.z_buffer.len()
                &&& Self::raster_fragment_defined(
                    Self::spec_after_pixels(screen, triangle, pixels.take(i)),
                    triangle,
                    pixels[i].0 as int,
                    pixels[i].1,
                )
            }
    }

    /// Takes the triangle through a list of pixels, each given by its index
    /// and the place of its centre: coverage, depth, depth test. The depth
    /// buffer takes the depth of every fragment that shows; the fragments
    /// that show come back with their pixels, for the caller to shade and
    /// to write with [`Screen::set_pixel`].
    pub fn raster_pixels(
        &mut self,
        triangle: &ScreenTriangle<S>,
        pixels: &[(usize, Vec2<S>)],
    ) -> (r: Vec<(usize, Attributes<S>)>)
        requires
            lawful::<S>(),
            Self::raster_pixels_defined(old(self)@, *triangle, pixels@),
        ensures
            final(self)@ == Self::spec_after_pixels(old(self)@, *triangle, pixels@),
            r@ == Self::spec_raster_pixels(old(self)@, *triangle, pixels@),
            final(self)@.data == old(self)@.data,
    {
        let n: usize = pixels.len();
        let mut r: Vec<(usize, Attributes<S>)> = Vec::new();
        let mut i: usize = 0;
        while i < n
            invariant
                i <= n,
                n == pixels@.len(),
                lawful::<S>(),
                Self::raster_pixels_defined(old(self)@, *triangle, pixels@),
                self@ == Self::spec_after_pixels(old(self)@, *triangle, pixels@.take(i as int)),
                r@ == Self::spec_raster_pixels(old(self)@, *triangle, pixels@.take(i as int)),
                self@.data == old(self)@.data,
                self@.z_buffer.len() == old(self)@.z_buffer.len(),
            decreases n - i,
        {
            let pixel = pixels[i];
            proof {
                let next = pixels@.take(i as int + 1);
                assert(next.drop_last() =~= pixels@.take(i as int));
                assert(next.last() == pixels@[i as int]);
            }
            match self.raster_fragment(triangle, pixel.0, pixel.1) {
                Some(surface) => {
                    r.push((pixel.0, surface));
                },
                None => {},
            }
            i = i + 1;
        }
        assert(pixels@.take(n as int) =~= pixels@);
        r
    }
}

} // verus!
