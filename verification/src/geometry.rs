//! Vertices, triangles and meshes: plain geometric records, their
//! arithmetic and the bookkeeping of index buffers.
use crate::matrix::Mat4;
use crate::scalar::{less, one, ordered, spec_one, spec_zero, zero, Scalar};
use crate::vector::{UVec3, Vec2, Vec3, Vec4};
use core::ops::{Add, Mul, Sub};
use vstd::prelude::*;
use vstd::std_specs::convert::FromSpec;
use vstd::std_specs::ops::{AddSpec, MulSpec, SubSpec};

verus! {

/// One corner of a triangle: a homogeneous position and the attributes that
/// are interpolated across the triangle.
#[derive(Clone, Copy, Debug, PartialEq)]
pub struct Vertex<S> {
    pub position: Vec4<S>,
    pub color: Vec3<S>,
    pub normal: Vec3<S>,
    pub uv: Vec2<S>,
}

impl<S: Scalar> Vertex<S> {
    /// Scales position and attributes by one number, in place.
    pub fn mul_assign(&mut self, rhs: S)
        requires
            S::obeys_mul_spec(),
            MulSpec::mul_req(*old(self), rhs),
        ensures
            *final(self) == MulSpec::mul_spec(*old(self), rhs),
    {
        self.position = self.position * rhs;
        self.color = self.color * rhs;
        self.normal = self.normal * rhs;
        self.uv = self.uv * rhs;
    }

    /// The vertex with the given position and attributes.
    pub fn create(position: Vec4<S>, color: Vec3<S>, normal: Vec3<S>, uv: Vec2<S>) -> (r: Self)
        ensures
            r == (Vertex { position, color, normal, uv }),
    {
        Self { position, color, normal, uv }
    }
}

/// Adds position and attributes componentwise.
impl<S: Scalar> Add for Vertex<S> {
    type Output = Vertex<S>;

    fn add(self, rhs: Vertex<S>) -> (r: Vertex<S>) {
        let position = self.position + rhs.position;
        let color = self.color + rhs.color;
        let normal = self.normal + rhs.normal;
        let uv = self.uv + rhs.uv;
        Vertex { position, color, normal, uv }
    }
}

impl<S: Scalar> vstd::std_specs::ops::AddSpecImpl for Vertex<S> {
    open spec fn obeys_add_spec() -> bool {
        S::obeys_add_spec()
    }

    open spec fn add_req(self, rhs: Vertex<S>) -> bool {
        &&& AddSpec::add_req(self.position, rhs.position)
        &&& AddSpec::add_req(self.color, rhs.color)
        &&& AddSpec::add_req(self.normal, rhs.normal)
        &&& AddSpec::add_req(self.uv, rhs.uv)
    }

    open spec fn add_spec(self, rhs: Vertex<S>) -> Vertex<S> {
        Vertex {
            position: AddSpec::add_spec(self.position, rhs.position),
            color: AddSpec::add_spec(self.color, rhs.color),
            normal: AddSpec::add_spec(self.normal, rhs.normal),
            uv: AddSpec::add_spec(self.uv, rhs.uv),
        }
    }
}

/// Subtracts position and attributes componentwise.
impl<S: Scalar> Sub for Vertex<S> {
    type Output = Vertex<S>;

    fn sub(self, rhs: Vertex<S>) -> (r: Vertex<S>) {
        let position = self.position - rhs.position;
        let color = self.color - rhs.color;
        let normal = self.normal - rhs.normal;
        let uv = self.uv - rhs.uv;
        Vertex { position, color, normal, uv }
    }
}

impl<S: Scalar> vstd::std_specs::ops::SubSpecImpl for Vertex<S> {
    open spec fn obeys_sub_spec() -> bool {
        S::obeys_sub_spec()
    }

    open spec fn sub_req(self, rhs: Vertex<S>) -> bool {
        &&& SubSpec::sub_req(self.position, rhs.position)
        &&& SubSpec::sub_req(self.color, rhs.color)
        &&& SubSpec::sub_req(self.normal, rhs.normal)
        &&& SubSpec::sub_req(self.uv, rhs.uv)
    }

    open spec fn sub_spec(self, rhs: Vertex<S>) -> Vertex<S> {
        Vertex {
            position: SubSpec::sub_spec(self.position, rhs.position),
            color: SubSpec::sub_spec(self.color, rhs.color),
            normal: SubSpec::sub_spec(self.normal, rhs.normal),
            uv: SubSpec::sub_spec(self.uv, rhs.uv),
        }
    }
}

/// Scales position and attributes by one number.
impl<S: Scalar> Mul<S> for Vertex<S> {
    type Output = Vertex<S>;

    fn mul(self, rhs: S) -> (r: Vertex<S>) {
        let position = self.position * rhs;
        let color = self.color * rhs;
        let normal = self.normal * rhs;
        let uv = self.uv * rhs;
        Vertex { position, color, normal, uv }
    }
}

impl<S: Scalar> vstd::std_specs::ops::MulSpecImpl<S> for Vertex<S> {
    open spec fn obeys_mul_spec() -> bool {
        S::obeys_mul_spec()
    }

    open spec fn mul_req(self, rhs: S) -> bool {
        &&& MulSpec::mul_req(self.position, rhs)
        &&& MulSpec::mul_req(self.color, rhs)
        &&& MulSpec::mul_req(self.normal, rhs)
        &&& MulSpec::mul_req(self.uv, rhs)
    }

    open spec fn mul_spec(self, rhs: S) -> Vertex<S> {
        Vertex {
            position: MulSpec::mul_spec(self.position, rhs),
            color: MulSpec::mul_spec(self.color, rhs),
            normal: MulSpec::mul_spec(self.normal, rhs),
            uv: MulSpec::mul_spec(self.uv, rhs),
        }
    }
}

/// Three vertices; their order fixes which side of the triangle is its front.
#[derive(Clone, Copy, Debug, PartialEq)]
pub struct Triangle<S> {
    pub v0: Vertex<S>,
    pub v1: Vertex<S>,
    pub v2: Vertex<S>,
}

/// The six orders in which the corners `A`, `B`, `C` of a triangle can be
/// listed.
#[derive(Clone, Copy, Debug, PartialEq, Eq)]
pub enum VerticesOrder {
    ABC,
    ACB,
    BAC,
    BCA,
    CAB,
    CBA,
}

impl<S: Scalar> Triangle<S> {
    /// The triangle with the given corners, in this order.
    pub fn create(v0: Vertex<S>, v1: Vertex<S>, v2: Vertex<S>) -> (r: Self)
        ensures
            r == (Triangle { v0, v1, v2 }),
    {
        Self { v0, v1, v2 }
    }

    /// The point `(x, y, z, 1)` of `position`, transformed by `matrix`.
    pub open spec fn spec_transform_point(matrix: Mat4<S>, position: Vec4<S>) -> Vec4<S> {
        matrix.spec_mul_vec4(position.spec_xyz().spec_extend(spec_one::<S>()))
    }

    /// No step of transforming the three positions leaves the range of `S`.
    pub open spec fn transform_defined(self, matrix: Mat4<S>) -> bool {
        &&& matrix.mul_vec4_defined(self.v0.position.spec_xyz().spec_extend(spec_one::<S>()))
        &&& matrix.mul_vec4_defined(self.v1.position.spec_xyz().spec_extend(spec_one::<S>()))
        &&& matrix.mul_vec4_defined(self.v2.position.spec_xyz().spec_extend(spec_one::<S>()))
    }

    /// The triangle with each position taken as a point and transformed by
    /// `matrix`; the other attributes stay.
    pub open spec fn spec_transform(self, matrix: Mat4<S>) -> Triangle<S> {
        Triangle {
            v0: Vertex {
                position: Self::spec_transform_point(matrix, self.v0.position),
                ..self.v0
            },
            v1: Vertex {
                position: Self::spec_transform_point(matrix, self.v1.position),
                ..self.v1
            },
            v2: Vertex {
                position: Self::spec_transform_point(matrix, self.v2.position),
                ..self.v2
            },
        }
    }

    /// Applies `matrix` to the position of each vertex, treating it as a
    /// point: its fourth number is replaced by one before the product.
    pub fn transform(&self, matrix: &Mat4<S>) -> (r: Self)
        requires
            S::obeys_mul_spec(),
            S::obeys_add_spec(),
            S::obeys_from_spec(),
            self.transform_defined(*matrix),
        ensures
            r == self.spec_transform(*matrix),
    {
        let mut result = *self;
        result.v0.position = matrix.mul_vec4(self.v0.position.xyz().extend(one()));
        result.v1.position = matrix.mul_vec4(self.v1.position.xyz().extend(one()));
        result.v2.position = matrix.mul_vec4(self.v2.position.xyz().extend(one()));
        result
    }

    /// The triangle with its corners listed in the given order.
    pub open spec fn spec_reorder(self, order: VerticesOrder) -> Triangle<S> {
        match order {
            VerticesOrder::ABC => self,
            VerticesOrder::ACB => Triangle { v0: self.v0, v1: self.v2, v2: self.v1 },
            VerticesOrder::BAC => Triangle { v0: self.v1, v1: self.v0, v2: self.v2 },
            VerticesOrder::BCA => Triangle { v0: self.v1, v1: self.v2, v2: self.v0 },
            VerticesOrder::CAB => Triangle { v0: self.v2, v1: self.v0, v2: self.v1 },
            VerticesOrder::CBA => Triangle { v0: self.v2, v1: self.v1, v2: self.v0 },
        }
    }

    /// Reordering keeps the three corners: each corner of the triangle is a
    /// corner of the reordered one, and the other way round.
    pub proof fn lemma_reorder_keeps_corners(self, order: VerticesOrder)
        ensures
            ({
                let r = self.spec_reorder(order);
                &&& (r.v0 == self.v0 || r.v1 == self.v0 || r.v2 == self.v0)
                &&& (r.v0 == self.v1 || r.v1 == self.v1 || r.v2 == self.v1)
                &&& (r.v0 == self.v2 || r.v1 == self.v2 || r.v2 == self.v2)
                &&& (r.v0 == self.v0 || r.v0 == self.v1 || r.v0 == self.v2)
                &&& (r.v1 == self.v0 || r.v1 == self.v1 || r.v1 == self.v2)
                &&& (r.v2 == self.v0 || r.v2 == self.v1 || r.v2 == self.v2)
            }),
    {
    }

    /// Lists the corners in the given order.
    pub fn reorder(&self, order: VerticesOrder) -> (r: Self)
        ensures
            r == self.spec_reorder(order),
    {
        match order {
            VerticesOrder::ABC => *self,
            VerticesOrder::ACB => Self::create(self.v0, self.v2, self.v1),
            VerticesOrder::BAC => Self::create(self.v1, self.v0, self.v2),
            VerticesOrder::BCA => Self::create(self.v1, self.v2, self.v0),
            VerticesOrder::CAB => Self::create(self.v2, self.v0, self.v1),
            VerticesOrder::CBA => Self::create(self.v2, self.v1, self.v0),
        }
    }
}

/// Triangles over a shared vertex buffer. Each triangle is three indices
/// into `vertices`; the triangles themselves are made when they are asked
/// for.
pub struct Mesh<S> {
    pub triangles: Vec<UVec3>,
    pub vertices: Vec<Vertex<S>>,
}

/// All three indices of the triangle are below `count`.
pub open spec fn indices_below(triangle: UVec3, count: int) -> bool {
    triangle.x < count && triangle.y < count && triangle.z < count
}

/// Every triangle of the index buffer refers to vertices below `count`.
pub open spec fn all_indices_below(triangles: Seq<UVec3>, count: int) -> bool {
    forall|i: int| 0 <= i < triangles.len() ==> indices_below(#[trigger] triangles[i], count)
}

/// The triangle with `offset` added to each index.
pub open spec fn spec_rebase(triangle: UVec3, offset: int) -> UVec3 {
    Vec3 {
        x: (triangle.x + offset) as u32,
        y: (triangle.y + offset) as u32,
        z: (triangle.z + offset) as u32,
    }
}

/// The vertex that the buffers of a section give at place `i`: the
/// position as a point, and white, the unit normal `(0, 0, 1)` and the zero texture
/// coordinate for each buffer that is empty.
pub open spec fn spec_vertex_of_buffers<S: Scalar>(
    positions: Seq<Vec3<S>>,
    colors: Seq<Vec3<S>>,
    normals: Seq<Vec3<S>>,
    uvs: Seq<Vec2<S>>,
    i: int,
) -> Vertex<S> {
    let white = Vec3 { x: spec_one::<S>(), y: spec_one::<S>(), z: spec_one::<S>() };
    let unit_normal = Vec3 { x: spec_zero::<S>(), y: spec_zero::<S>(), z: spec_one::<S>() };
    Vertex {
        position: positions[i].spec_extend(spec_one::<S>()),
        color: if colors.len() > 0 {
            colors[i]
        } else {
            white
        },
        normal: if normals.len() > 0 {
            normals[i]
        } else {
            unit_normal
        },
        uv: if uvs.len() > 0 {
            uvs[i]
        } else {
            Vec2 { x: spec_zero::<S>(), y: spec_zero::<S>() }
        },
    }
}

/// Groups a flat list of indices into triangles, three by three; one or
/// two indices left at the end are dropped.
pub fn triangles_from_indices(indices: &[u32]) -> (r: Vec<UVec3>)
    ensures
        r@.len() == indices@.len() / 3,
        forall|i: int|
            0 <= i < r@.len() ==> r@[i] == (Vec3 {
                x: indices@[3 * i],
                y: indices@[3 * i + 1],
                z: indices@[3 * i + 2],
            }),
{
    let len: usize = indices.len();
    let n: usize = len / 3;
    let mut r: Vec<UVec3> = Vec::new();
    let mut k: usize = 0;
    while k < n
        invariant
            k <= n,
            len == indices@.len(),
            n == len / 3,
            r@.len() == k,
            forall|i: int|
                0 <= i < k ==> r@[i] == (Vec3 {
                    x: indices@[3 * i],
                    y: indices@[3 * i + 1],
                    z: indices@[3 * i + 2],
                }),
        decreases n - k,
    {
        r.push(Vec3 { x: indices[3 * k], y: indices[3 * k + 1], z: indices[3 * k + 2] });
        k = k + 1;
    }
    r
}

/// In whole numbers, the normal that stands in for a missing one has
/// length one.
pub proof fn lemma_default_normal_is_unit(
    positions: Seq<Vec3<i64>>,
    colors: Seq<Vec3<i64>>,
    uvs: Seq<Vec2<i64>>,
    i: int,
)
    ensures
        ({
            let n = spec_vertex_of_buffers(positions, colors, Seq::empty(), uvs, i).normal;
            n.x * n.x + n.y * n.y + n.z * n.z == 1
        }),
{
    let n = spec_vertex_of_buffers(positions, colors, Seq::<Vec3<i64>>::empty(), uvs, i).normal;
    assert(n.x == 0 && n.y == 0 && n.z == 1);
    assert(n.x * n.x + n.y * n.y + n.z * n.z == 1) by (nonlinear_arith)
        requires
            n.x == 0,
            n.y == 0,
            n.z == 1,
    ;
}

impl<S: Scalar> Mesh<S> {
    /// Every index of the index buffer refers to a vertex of the mesh.
    pub open spec fn wf(&self) -> bool {
        all_indices_below(self.triangles@, self.vertices@.len() as int)
    }

    /// The empty mesh.
    pub fn create() -> (r: Self)
        ensures
            r.triangles@.len() == 0,
            r.vertices@.len() == 0,
            r.wf(),
    {
        Self { triangles: Vec::new(), vertices: Vec::new() }
    }

    /// The index buffer.
    pub fn get_triangles(&self) -> (r: &Vec<UVec3>)
        ensures
            r@ == self.triangles@,
    {
        &self.triangles
    }

    /// The vertex buffer.
    pub fn get_vertices(&self) -> (r: &Vec<Vertex<S>>)
        ensures
            r@ == self.vertices@,
    {
        &self.vertices
    }

    /// The three vertices that a triangle of the index buffer refers to.
    pub fn get_vertices_from_triangle(&self, triangle: UVec3) -> (r: [&Vertex<S>; 3])
        requires
            indices_below(triangle, self.vertices@.len() as int),
        ensures
            *r[0] == self.vertices@[triangle.x as int],
            *r[1] == self.vertices@[triangle.y as int],
            *r[2] == self.vertices@[triangle.z as int],
    {
        [
            &self.vertices[triangle.x as usize],
            &self.vertices[triangle.y as usize],
            &self.vertices[triangle.z as usize],
        ]
    }

    /// The mesh of one section.
    pub fn from_vertices(triangles: &[UVec3], vertices: &[Vertex<S>]) -> (r: Self)
        ensures
            r.triangles@ == triangles@,
            r.vertices@ == vertices@,
            all_indices_below(triangles@, vertices@.len() as int) ==> r.wf(),
    {
        let mut mesh = Mesh::create();
        mesh.add_section_from_vertices(triangles, vertices);
        assert(mesh.triangles@ =~= triangles@) by {
            assert forall|i: int| 0 <= i < triangles@.len() implies spec_rebase(triangles@[i], 0)
                == triangles@[i] by {}
        }
        assert(mesh.vertices@ =~= vertices@);
        mesh
    }

    /// Appends a section whose indices count from its own first vertex:
    /// each index is re-based by the number of vertices that the mesh held
    /// before, so that it refers to the same vertex as before.
    pub fn add_section_from_vertices(&mut self, triangles: &[UVec3], vertices: &[Vertex<S>])
        requires
            old(self).vertices@.len() <= u32::MAX,
            all_indices_below(triangles@, u32::MAX - old(self).vertices@.len() + 1),
        ensures
            final(self).vertices@ == old(self).vertices@ + vertices@,
            final(self).triangles@ == old(self).triangles@ + Seq::new(
                triangles@.len(),
                |i: int| spec_rebase(triangles@[i], old(self).vertices@.len() as int),
            ),
            old(self).wf() && all_indices_below(triangles@, vertices@.len() as int)
                ==> final(self).wf(),
    {
        let offset: u32 = self.vertices.len() as u32;
        let n: usize = triangles.len();
        let mut i: usize = 0;
        while i < n
            invariant
                i <= n,
                n == triangles@.len(),
                offset == old(self).vertices@.len(),
                all_indices_below(triangles@, u32::MAX - offset + 1),
                self.vertices@ == old(self).vertices@,
                self.triangles@ =~= old(self).triangles@ + Seq::new(
                    i as nat,
                    |k: int| spec_rebase(triangles@[k], offset as int),
                ),
            decreases n - i,
        {
            let index = triangles[i];
            assert(indices_below(triangles@[i as int], u32::MAX - offset + 1));
            self.triangles.push(
                Vec3 { x: index.x + offset, y: index.y + offset, z: index.z + offset },
            );
            i = i + 1;
        }
        let m: usize = vertices.len();
        let mut j: usize = 0;
        while j < m
            invariant
                j <= m,
                m == vertices@.len(),
                self.triangles@ == old(self).triangles@ + Seq::new(
                    triangles@.len(),
                    |k: int| spec_rebase(triangles@[k], offset as int),
                ),
                self.vertices@ =~= old(self).vertices@ + vertices@.take(j as int),
            decreases m - j,
        {
            self.vertices.push(vertices[j]);
            j = j + 1;
        }
        assert(vertices@.take(m as int) =~= vertices@);
    }

    /// Merges another mesh into this one: its vertices are appended, and
    /// its triangles with their indices re-based, so that each refers to
    /// the same vertex as before.
    pub fn merge(&mut self, other: &Mesh<S>)
        requires
            old(self).vertices@.len() <= u32::MAX,
            all_indices_below(other.triangles@, u32::MAX - old(self).vertices@.len() + 1),
        ensures
            final(self).vertices@ == old(self).vertices@ + other.vertices@,
            final(self).triangles@ == old(self).triangles@ + Seq::new(
                other.triangles@.len(),
                |i: int| spec_rebase(other.triangles@[i], old(self).vertices@.len() as int),
            ),
            old(self).wf() && other.wf() ==> final(self).wf(),
    {
        self.add_section_from_vertices(other.triangles.as_slice(), other.vertices.as_slice());
    }

    /// Appends a section given as separate buffers, one vertex for each
    /// position. An empty colour, normal or texture-coordinate buffer
    /// stands for "not given": white, the unit normal `(0, 0, 1)` and the zero
    /// coordinate are used. The indices are taken as they are.
    pub fn add_section_from_buffers(
        &mut self,
        triangles: &[UVec3],
        positions: &[Vec3<S>],
        colors: &[Vec3<S>],
        normals: &[Vec3<S>],
        uvs: &[Vec2<S>],
    )
        requires
            colors@.len() > 0 ==> colors@.len() >= positions@.len(),
            normals@.len() > 0 ==> normals@.len() >= positions@.len(),
            uvs@.len() > 0 ==> uvs@.len() >= positions@.len(),
        ensures
            final(self).triangles@ == old(self).triangles@ + triangles@,
            S::obeys_from_spec() ==> final(self).vertices@ == old(self).vertices@ + Seq::new(
                positions@.len(),
                |i: int| spec_vertex_of_buffers(positions@, colors@, normals@, uvs@, i),
            ),
            final(self).vertices@.len() == old(self).vertices@.len() + positions@.len(),
    {
        let n: usize = triangles.len();
        let mut k: usize = 0;
        while k < n
            invariant
                k <= n,
                n == triangles@.len(),
                self.vertices@ == old(self).vertices@,
                self.triangles@ =~= old(self).triangles@ + triangles@.take(k as int),
            decreases n - k,
        {
            self.triangles.push(triangles[k]);
            k = k + 1;
        }
        assert(triangles@.take(n as int) =~= triangles@);

        let has_uvs = uvs.len() > 0;
        let has_colors = colors.len() > 0;
        let has_normals = normals.len() > 0;

        let m: usize = positions.len();
        let mut i: usize = 0;
        while i < m
            invariant
                i <= m,
                m == positions@.len(),
                has_uvs == (uvs@.len() > 0),
                has_colors == (colors@.len() > 0),
                has_normals == (normals@.len() > 0),
                colors@.len() > 0 ==> colors@.len() >= positions@.len(),
                normals@.len() > 0 ==> normals@.len() >= positions@.len(),
                uvs@.len() > 0 ==> uvs@.len() >= positions@.len(),
                self.triangles@ == old(self).triangles@ + triangles@,
                self.vertices@.len() == old(self).vertices@.len() + i,
                S::obeys_from_spec() ==> self.vertices@ =~= old(self).vertices@ + Seq::new(
                    i as nat,
                    |k: int| spec_vertex_of_buffers(positions@, colors@, normals@, uvs@, k),
                ),
            decreases m - i,
        {
            let white = Vec3 { x: one::<S>(), y: one::<S>(), z: one::<S>() };
            let unit_normal = Vec3 { x: zero::<S>(), y: zero::<S>(), z: one::<S>() };
            let vertex = Vertex::create(
                positions[i].extend(one()),
                if has_colors {
                    colors[i]
                } else {
                    white
                },
                if has_normals {
                    normals[i]
                } else {
                    unit_normal
                },
                if has_uvs {
                    uvs[i]
                } else {
                    Vec2 { x: zero::<S>(), y: zero::<S>() }
                },
            );
            self.vertices.push(vertex);
            i = i + 1;
        }
    }
}

impl<S: Scalar> Default for Mesh<S> {
    fn default() -> (r: Self)
        ensures
            r.triangles@.len() == 0,
            r.vertices@.len() == 0,
    {
        Self::create()
    }
}

/// An axis-aligned rectangle: `left <= right` along `x`, `top <= bottom`
/// along `y`, which grows downwards.
#[derive(Clone, Copy, Debug, PartialEq)]
pub struct BoundingBox2D<S> {
    pub left: S,
    pub right: S,
    pub top: S,
    pub bottom: S,
}

/// The smaller of two numbers; the first where neither is below the other,
/// be it that they are equal or that they are not ordered at all.
pub open spec fn spec_min<S: Scalar>(a: S, b: S) -> S {
    if less(b, a) {
        b
    } else {
        a
    }
}

/// The larger of two numbers; the first where neither is above the other,
/// be it that they are equal or that they are not ordered at all.
pub open spec fn spec_max<S: Scalar>(a: S, b: S) -> S {
    if less(a, b) {
        b
    } else {
        a
    }
}

/// The smaller of two numbers.
pub(crate) fn min<S: Scalar>(a: S, b: S) -> (r: S)
    ensures
        ordered::<S>() ==> r == spec_min(a, b),
        r == a || r == b,
{
    if b < a {
        b
    } else {
        a
    }
}

/// The larger of two numbers.
pub(crate) fn max<S: Scalar>(a: S, b: S) -> (r: S)
    ensures
        ordered::<S>() ==> r == spec_max(a, b),
        r == a || r == b,
{
    if a < b {
        b
    } else {
        a
    }
}

/// The smallest rectangle that holds the three points.
pub open spec fn spec_triangle_bounding_box_2d<S: Scalar>(
    p0: Vec2<S>,
    p1: Vec2<S>,
    p2: Vec2<S>,
) -> BoundingBox2D<S> {
    BoundingBox2D {
        left: spec_min(spec_min(p0.x, p1.x), p2.x),
        right: spec_max(spec_max(p0.x, p1.x), p2.x),
        top: spec_min(spec_min(p0.y, p1.y), p2.y),
        bottom: spec_max(spec_max(p0.y, p1.y), p2.y),
    }
}

/// The bounding box of three points.
pub fn get_triangle_bounding_box_2d<S: Scalar>(positions: &[Vec2<S>; 3]) -> (r: BoundingBox2D<S>)
    ensures
        ordered::<S>() ==> r == spec_triangle_bounding_box_2d(
            positions[0],
            positions[1],
            positions[2],
        ),
{
    let left = min(min(positions[0].x, positions[1].x), positions[2].x);
    let right = max(max(positions[0].x, positions[1].x), positions[2].x);
    let top = min(min(positions[0].y, positions[1].y), positions[2].y);
    let bottom = max(max(positions[0].y, positions[1].y), positions[2].y);

    BoundingBox2D { left, right, top, bottom }
}

} // verus!
