//! Culling and clipping of clip-space triangles: the back-face test, the
//! conservative test against the view volume, and the exact cut at the near
//! plane.
use crate::geometry::{Triangle, Vertex, VerticesOrder};
use crate::raster::Screen;
use crate::scalar::{
    at_least, divides_exactly, exact, for_one, greater, lawful, less, spec_zero, zero, Scalar,
};
use crate::utils::{lerp, lerp_defined, spec_lerp};
use crate::vector::Vec3;
use core::ops::Neg;
use vstd::prelude::*;
use vstd::std_specs::ops::{AddSpec, DivSpec, MulSpec, NegSpec, SubSpec};

verus! {

/// What is left of a triangle after culling and clipping.
pub enum ClipResult<S> {
    Zero,
    One(Triangle<S>),
    Two((Triangle<S>, Triangle<S>)),
}

/// The vertex lies behind the near plane: its clip-space `z` is negative.
pub open spec fn behind<S: Scalar>(v: Vertex<S>) -> bool {
    less(v.position.z, spec_zero::<S>())
}

/// Where the edge from a vertex at depth `z_from` to one at depth `z_to`
/// crosses the near plane: `-z_from / (z_to - z_from)`.
pub open spec fn spec_crossing<S: Scalar>(z_from: S, z_to: S) -> S {
    z_from.neg_spec().div_spec(z_to.sub_spec(z_from))
}

/// The crossing can be computed and is exact: no step leaves the range of
/// `S`, and the division leaves no remainder.
pub open spec fn crossing_exact<S: Scalar>(z_from: S, z_to: S) -> bool {
    &&& z_from.neg_req()
    &&& z_to.sub_req(z_from)
    &&& divides_exactly(z_from.neg_spec(), z_to.sub_spec(z_from))
}

/// The vertex on the edge from `from` to `to` at which the edge crosses the
/// near plane, with every attribute blended as the position is.
pub open spec fn spec_clip_vertex<S: Scalar>(from: Vertex<S>, to: Vertex<S>) -> Vertex<S> {
    spec_lerp(from, to, spec_crossing(from.position.z, to.position.z))
}

/// The clipped vertex can be computed: the crossing is exact, and no step
/// of the interpolation leaves the range of `S`.
pub open spec fn clip_vertex_defined<S: Scalar>(from: Vertex<S>, to: Vertex<S>) -> bool {
    &&& crossing_exact(from.position.z, to.position.z)
    &&& lerp_defined(from, to, spec_crossing(from.position.z, to.position.z))
}

/// No vertex of the triangle is behind the near plane.
pub open spec fn none_behind<S: Scalar>(triangle: Triangle<S>) -> bool {
    !behind(triangle.v0) && !behind(triangle.v1) && !behind(triangle.v2)
}

/// Every triangle that is left lies on the visible side of the near plane.
pub open spec fn visible<S: Scalar>(result: ClipResult<S>) -> bool {
    match result {
        ClipResult::Zero => true,
        ClipResult::One(triangle) => none_behind(triangle),
        ClipResult::Two(pair) => none_behind(pair.0) && none_behind(pair.1),
    }
}

/// Cuts the edge from `from` to `to` at the near plane: the vertex that
/// comes out lies on the plane.
fn clip_vertex<S: Scalar>(from: Vertex<S>, to: Vertex<S>) -> (r: Vertex<S>)
    requires
        lawful::<S>(),
        clip_vertex_defined(from, to),
    ensures
        r == spec_clip_vertex(from, to),
        r.position.z == spec_zero::<S>(),
        !behind(r),
{
    let alpha = from.position.z.neg() / (to.position.z - from.position.z);
    let r = lerp(from, to, alpha);
    proof {
        let z = from.position.z;
        let d = to.position.z.sub_spec(z);
        assert(d.mul_spec(alpha) == z.neg_spec());
        assert(r.position.z == z.add_spec(d.mul_spec(alpha)));
        assert(for_one(z));
        assert(z.add_spec(z.neg_spec()) == spec_zero::<S>());
        assert(!less(spec_zero::<S>(), spec_zero::<S>()));
    }
    r
}

impl<S: Scalar> Screen<S> {
    /// All three vertices lie beyond one and the same plane of the view
    /// volume: `x > w`, `x < -w`, `y > w`, `y < -w`, `z > w` or `z < 0`.
    pub open spec fn spec_view_frustum_culling(triangle: Triangle<S>) -> bool {
        let p0 = triangle.v0.position;
        let p1 = triangle.v1.position;
        let p2 = triangle.v2.position;
        ||| greater(p0.x, p0.w) && greater(p1.x, p1.w) && greater(p2.x, p2.w)
        ||| less(p0.x, p0.w.neg_spec()) && less(p1.x, p1.w.neg_spec()) && less(
            p2.x,
            p2.w.neg_spec(),
        )
        ||| greater(p0.y, p0.w) && greater(p1.y, p1.w) && greater(p2.y, p2.w)
        ||| less(p0.y, p0.w.neg_spec()) && less(p1.y, p1.w.neg_spec()) && less(
            p2.y,
            p2.w.neg_spec(),
        )
        ||| greater(p0.z, p0.w) && greater(p1.z, p1.w) && greater(p2.z, p2.w)
        ||| behind(triangle.v0) && behind(triangle.v1) && behind(triangle.v2)
    }

    /// Each `w` can be negated.
    pub open spec fn view_frustum_culling_defined(triangle: Triangle<S>) -> bool {
        &&& triangle.v0.position.w.neg_req()
        &&& triangle.v1.position.w.neg_req()
        &&& triangle.v2.position.w.neg_req()
    }

    /// Whether the triangle lies wholly outside the view volume by the
    /// conservative test: true when all three vertices are beyond the same
    /// plane. A triangle that straddles a plane is kept.
    pub fn view_frustum_culling(triangle: &Triangle<S>) -> (culled: bool)
        requires
            exact::<S>(),
            Self::view_frustum_culling_defined(*triangle),
        ensures
            culled == Self::spec_view_frustum_culling(*triangle),
    {
        let p0 = triangle.v0.position;
        let p1 = triangle.v1.position;
        let p2 = triangle.v2.position;
        let n0 = p0.w.neg();
        let n1 = p1.w.neg();
        let n2 = p2.w.neg();
        let z: S = zero();
        // X
        if p0.x > p0.w && p1.x > p1.w && p2.x > p2.w {
            return true;
        }
        if p0.x < n0 && p1.x < n1 && p2.x < n2 {
            return true;
        }
        // Y
        if p0.y > p0.w && p1.y > p1.w && p2.y > p2.w {
            return true;
        }
        if p0.y < n0 && p1.y < n1 && p2.y < n2 {
            return true;
        }
        // Z
        if p0.z > p0.w && p1.z > p1.w && p2.z > p2.w {
            return true;
        }
        if p0.z < z && p1.z < z && p2.z < z {
            return true;
        }
        false
    }

    /// The two triangles that are left when `v0` alone is behind the near
    /// plane: `v0` is replaced by the crossing on the edge to `v1`, and the
    /// second triangle spans both crossings and `v2`.
    pub open spec fn spec_clip_triangle_two(triangle: Triangle<S>) -> (Triangle<S>, Triangle<S>) {
        let v0_a = spec_clip_vertex(triangle.v0, triangle.v1);
        let v0_b = spec_clip_vertex(triangle.v0, triangle.v2);
        (
            Triangle { v0: v0_a, v1: triangle.v1, v2: triangle.v2 },
            Triangle { v0: v0_a, v1: v0_b, v2: triangle.v2 },
        )
    }

    /// Both edges at `v0` can be cut: the crossings are exact, and no step
    /// leaves the range of `S`.
    pub open spec fn clip_triangle_two_defined(triangle: Triangle<S>) -> bool {
        &&& clip_vertex_defined(triangle.v0, triangle.v1)
        &&& clip_vertex_defined(triangle.v0, triangle.v2)
    }

    /// Clips a triangle whose first vertex alone is behind the near plane
    /// into the two triangles that cover what is in front of it. The new
    /// vertices lie on the plane; the colours, normals and texture
    /// coordinates are blended as the positions are.
    pub fn clip_triangle_two(triangle: &Triangle<S>) -> (r: (Triangle<S>, Triangle<S>))
        requires
            lawful::<S>(),
            Self::clip_triangle_two_defined(*triangle),
        ensures
            r == Self::spec_clip_triangle_two(*triangle),
            r.0.v0.position.z == spec_zero::<S>(),
            r.1.v0.position.z == spec_zero::<S>(),
            r.1.v1.position.z == spec_zero::<S>(),
            !behind(triangle.v1) && !behind(triangle.v2) ==> none_behind(r.0) && none_behind(r.1),
    {
        let v0_a = clip_vertex(triangle.v0, triangle.v1);
        let v0_b = clip_vertex(triangle.v0, triangle.v2);

        let mut result_a = *triangle;
        let mut result_b = *triangle;

        result_a.v0 = v0_a;

        result_b.v0 = v0_a;
        result_b.v1 = v0_b;

        (result_a, result_b)
    }

    /// The triangle that is left when `v0` and `v1` are behind the near
    /// plane: each is replaced by the crossing on its edge to `v2`.
    pub open spec fn spec_clip_triangle_one(triangle: Triangle<S>) -> Triangle<S> {
        Triangle {
            v0: spec_clip_vertex(triangle.v0, triangle.v2),
            v1: spec_clip_vertex(triangle.v1, triangle.v2),
            v2: triangle.v2,
        }
    }

    /// Both edges at `v2` can be cut: the crossings are exact, and no step
    /// leaves the range of `S`.
    pub open spec fn clip_triangle_one_defined(triangle: Triangle<S>) -> bool {
        &&& clip_vertex_defined(triangle.v0, triangle.v2)
        &&& clip_vertex_defined(triangle.v1, triangle.v2)
    }

    /// Clips a triangle whose first two vertices are behind the near plane
    /// into the one triangle in front of it. The new vertices lie on the
    /// plane.
    pub fn clip_triangle_one(triangle: &Triangle<S>) -> (r: Triangle<S>)
        requires
            lawful::<S>(),
            Self::clip_triangle_one_defined(*triangle),
        ensures
            r == Self::spec_clip_triangle_one(*triangle),
            r.v0.position.z == spec_zero::<S>(),
            r.v1.position.z == spec_zero::<S>(),
            !behind(triangle.v2) ==> none_behind(r),
    {
        let v0 = clip_vertex(triangle.v0, triangle.v2);
        let v1 = clip_vertex(triangle.v1, triangle.v2);
        let v2 = triangle.v2;

        Triangle { v0, v1, v2 }
    }

    /// The normal of the triangle as its positions give it: the cross
    /// product of the edges from `v0` to `v1` and from `v0` to `v2`.
    pub open spec fn spec_face_normal(triangle: Triangle<S>) -> Vec3<S> {
        triangle.v1.position.spec_xyz().sub_spec(triangle.v0.position.spec_xyz()).spec_cross(
            triangle.v2.position.spec_xyz().sub_spec(triangle.v0.position.spec_xyz()),
        )
    }

    /// The triangle faces away from the viewer, or shows its edge: its
    /// normal does not point against `view_dir`.
    pub open spec fn spec_cull_triangle_backface(triangle: Triangle<S>, view_dir: Vec3<S>) -> bool {
        at_least(Self::spec_face_normal(triangle).spec_dot(view_dir), spec_zero::<S>())
    }

    /// No step of the facing test leaves the range of `S`.
    pub open spec fn cull_triangle_backface_defined(
        triangle: Triangle<S>,
        view_dir: Vec3<S>,
    ) -> bool {
        let e1 = triangle.v1.position.spec_xyz().sub_spec(triangle.v0.position.spec_xyz());
        let e2 = triangle.v2.position.spec_xyz().sub_spec(triangle.v0.position.spec_xyz());
        &&& triangle.v1.position.spec_xyz().sub_req(triangle.v0.position.spec_xyz())
        &&& triangle.v2.position.spec_xyz().sub_req(triangle.v0.position.spec_xyz())
        &&& e1.cross_defined(e2)
        &&& e1.spec_cross(e2).dot_defined(view_dir)
    }

    /// Whether the triangle is a back face for a viewer who looks along
    /// `view_dir`. The normal is not normalized: only its sign matters.
    pub fn cull_triangle_backface(triangle: &Triangle<S>, view_dir: Vec3<S>) -> (culled: bool)
        requires
            exact::<S>(),
            Self::cull_triangle_backface_defined(*triangle, view_dir),
        ensures
            culled == Self::spec_cull_triangle_backface(*triangle, view_dir),
    {
        let normal = (triangle.v1.position.xyz() - triangle.v0.position.xyz()).cross(
            triangle.v2.position.xyz() - triangle.v0.position.xyz(),
        );
        let z: S = zero();
        normal.dot(view_dir) >= z
    }

    /// What clipping against the near plane leaves of a triangle that
    /// passed both culling tests, by which of its vertices are behind the
    /// plane.
    pub open spec fn spec_near_clip(triangle: Triangle<S>) -> ClipResult<S> {
        if behind(triangle.v0) {
            if behind(triangle.v1) {
                ClipResult::One(Self::spec_clip_triangle_one(triangle))
            } else if behind(triangle.v2) {
                ClipResult::One(
                    Self::spec_clip_triangle_one(triangle.spec_reorder(VerticesOrder::ACB)),
                )
            } else {
                ClipResult::Two(
                    Self::spec_clip_triangle_two(triangle.spec_reorder(VerticesOrder::ACB)),
                )
            }
        } else if behind(triangle.v1) {
            if behind(triangle.v2) {
                ClipResult::One(
                    Self::spec_clip_triangle_one(triangle.spec_reorder(VerticesOrder::BCA)),
                )
            } else {
                ClipResult::Two(
                    Self::spec_clip_triangle_two(triangle.spec_reorder(VerticesOrder::BAC)),
                )
            }
        } else if behind(triangle.v2) {
            ClipResult::Two(Self::spec_clip_triangle_two(triangle.spec_reorder(VerticesOrder::CBA)))
        } else {
            ClipResult::One(triangle)
        }
    }

    /// The clipping that the triangle needs can be done: its crossings are
    /// exact, and no step leaves the range of `S`.
    pub open spec fn near_clip_defined(triangle: Triangle<S>) -> bool {
        if behind(triangle.v0) {
            if behind(triangle.v1) {
                Self::clip_triangle_one_defined(triangle)
            } else if behind(triangle.v2) {
                Self::clip_triangle_one_defined(triangle.spec_reorder(VerticesOrder::ACB))
            } else {
                Self::clip_triangle_two_defined(triangle.spec_reorder(VerticesOrder::ACB))
            }
        } else if behind(triangle.v1) {
            if behind(triangle.v2) {
                Self::clip_triangle_one_defined(triangle.spec_reorder(VerticesOrder::BCA))
            } else {
                Self::clip_triangle_two_defined(triangle.spec_reorder(VerticesOrder::BAC))
            }
        } else if behind(triangle.v2) {
            Self::clip_triangle_two_defined(triangle.spec_reorder(VerticesOrder::CBA))
        } else {
            true
        }
    }

    /// Nothing for a back face or a triangle outside the view volume;
    /// otherwise what clipping against the near plane leaves.
    pub open spec fn spec_clip_cull_triangle(
        triangle: Triangle<S>,
        view_dir: Vec3<S>,
    ) -> ClipResult<S> {
        if Self::spec_cull_triangle_backface(triangle, view_dir) {
            ClipResult::Zero
        } else if Self::spec_view_frustum_culling(triangle) {
            ClipResult::Zero
        } else {
            Self::spec_near_clip(triangle)
        }
    }

    /// Culling and clipping can be done: no step leaves the range of `S`,
    /// and the crossings that are needed are exact.
    pub open spec fn clip_cull_triangle_defined(triangle: Triangle<S>, view_dir: Vec3<S>) -> bool {
        &&& Self::cull_triangle_backface_defined(triangle, view_dir)
        &&& !Self::spec_cull_triangle_backface(triangle, view_dir) ==> {
            &&& Self::view_frustum_culling_defined(triangle)
            &&& !Self::spec_view_frustum_culling(triangle) ==> Self::near_clip_defined(triangle)
        }
    }

    /// Culls a clip-space triangle that is a back face or outside the view
    /// volume, and clips what is left against the near plane: zero, one or
    /// two triangles come out, none of them with a vertex behind the plane.
    ///
    /// Only exact crossings are admitted: where the division of a crossing
    /// would leave a remainder, as `1 / 2` does in whole numbers, the
    /// vertex that comes out of it would not lie on the plane.
    pub fn clip_cull_triangle(triangle: &Triangle<S>, view_dir: Vec3<S>) -> (r: ClipResult<S>)
        requires
            lawful::<S>(),
            Self::clip_cull_triangle_defined(*triangle, view_dir),
        ensures
            r == Self::spec_clip_cull_triangle(*triangle, view_dir),
            visible(r),
    {
        if Self::cull_triangle_backface(triangle, view_dir) {
            return ClipResult::Zero;
        }
        if Self::view_frustum_culling(triangle) {
            ClipResult::Zero
        } else {
            let z: S = zero();
            if triangle.v0.position.z < z {
                if triangle.v1.position.z < z {
                    ClipResult::One(Self::clip_triangle_one(triangle))
                } else if triangle.v2.position.z < z {
                    ClipResult::One(
                        Self::clip_triangle_one(&triangle.reorder(VerticesOrder::ACB)),
                    )
                } else {
                    ClipResult::Two(
                        Self::clip_triangle_two(&triangle.reorder(VerticesOrder::ACB)),
                    )
                }
            } else if triangle.v1.position.z < z {
                if triangle.v2.position.z < z {
                    ClipResult::One(
                        Self::clip_triangle_one(&triangle.reorder(VerticesOrder::BCA)),
                    )
                } else {
                    ClipResult::Two(
                        Self::clip_triangle_two(&triangle.reorder(VerticesOrder::BAC)),
                    )
                }
            } else if triangle.v2.position.z < z {
                ClipResult::Two(Self::clip_triangle_two(&triangle.reorder(VerticesOrder::CBA)))
            } else {
                ClipResult::One(*triangle)
            }
        }
    }

    /// The vertex lies inside the view volume, its faces included.
    pub open spec fn inside_view_volume(v: Vertex<S>) -> bool {
        let p = v.position;
        &&& !greater(p.x, p.w)
        &&& !less(p.x, p.w.neg_spec())
        &&& !greater(p.y, p.w)
        &&& !less(p.y, p.w.neg_spec())
        &&& !greater(p.z, p.w)
        &&& !behind(v)
    }

    /// The test against the view volume is conservative: a triangle with a
    /// vertex inside the view volume is never culled by it.
    pub proof fn lemma_vertex_inside_is_kept(triangle: Triangle<S>)
        requires
            Self::inside_view_volume(triangle.v0) || Self::inside_view_volume(triangle.v1)
                || Self::inside_view_volume(triangle.v2),
        ensures
            !Self::spec_view_frustum_culling(triangle),
    {
    }

    /// A triangle with all three vertices behind the near plane leaves
    /// nothing.
    pub proof fn lemma_all_behind_is_culled(triangle: Triangle<S>, view_dir: Vec3<S>)
        requires
            behind(triangle.v0),
            behind(triangle.v1),
            behind(triangle.v2),
        ensures
            Self::spec_clip_cull_triangle(triangle, view_dir) is Zero,
    {
    }

    /// A triangle that passes both culling tests with exactly one vertex
    /// behind the near plane leaves exactly two triangles. They share the
    /// crossing next to the vertex that was cut off and one vertex in front
    /// of the plane, and keep both vertices in front of the plane between
    /// them.
    pub proof fn lemma_one_behind_gives_two(triangle: Triangle<S>, view_dir: Vec3<S>)
        requires
            !Self::spec_cull_triangle_backface(triangle, view_dir),
            !Self::spec_view_frustum_culling(triangle),
            (behind(triangle.v0) && !behind(triangle.v1) && !behind(triangle.v2)) || (!behind(
                triangle.v0,
            ) && behind(triangle.v1) && !behind(triangle.v2)) || (!behind(triangle.v0) && !behind(
                triangle.v1,
            ) && behind(triangle.v2)),
        ensures
            Self::spec_clip_cull_triangle(triangle, view_dir) is Two,
            ({
                let (a, b) = Self::spec_clip_cull_triangle(triangle, view_dir)->Two_0;
                &&& a.v0 == b.v0
                &&& a.v2 == b.v2
                &&& !behind(a.v1)
                &&& !behind(a.v2)
                &&& (a.v1 == triangle.v0 || a.v1 == triangle.v1 || a.v1 == triangle.v2)
                &&& (a.v2 == triangle.v0 || a.v2 == triangle.v1 || a.v2 == triangle.v2)
            }),
    {
    }

    /// A triangle that passes both culling tests with no vertex behind the
    /// near plane comes out unchanged.
    pub proof fn lemma_none_behind_is_kept(triangle: Triangle<S>, view_dir: Vec3<S>)
        requires
            !Self::spec_cull_triangle_backface(triangle, view_dir),
            !Self::spec_view_frustum_culling(triangle),
            !behind(triangle.v0),
            !behind(triangle.v1),
            !behind(triangle.v2),
        ensures
            Self::spec_clip_cull_triangle(triangle, view_dir) == ClipResult::One(triangle),
    {
    }
}

} // verus!
