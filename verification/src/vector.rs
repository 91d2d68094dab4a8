//! Small vectors of two, three and four numbers, with componentwise
//! arithmetic.
use crate::scalar::Scalar;
use core::ops::{Add, Mul, Sub};
use vstd::prelude::*;
use vstd::std_specs::ops::{AddSpec, MulSpec, SubSpec};

verus! {

/// A vector of two numbers.
#[derive(Clone, Copy, Debug, PartialEq)]
pub struct Vec2<S> {
    pub x: S,
    pub y: S,
}

/// The componentwise sum.
impl<S: Scalar> Add for Vec2<S> {
    type Output = Vec2<S>;

    fn add(self, rhs: Vec2<S>) -> (r: Vec2<S>) {
        Vec2 { x: self.x + rhs.x, y: self.y + rhs.y }
    }
}

impl<S: Scalar> vstd::std_specs::ops::AddSpecImpl for Vec2<S> {
    open spec fn obeys_add_spec() -> bool {
        S::obeys_add_spec()
    }

    open spec fn add_req(self, rhs: Vec2<S>) -> bool {
        self.x.add_req(rhs.x) && self.y.add_req(rhs.y)
    }

    open spec fn add_spec(self, rhs: Vec2<S>) -> Vec2<S> {
        Vec2 { x: self.x.add_spec(rhs.x), y: self.y.add_spec(rhs.y) }
    }
}

/// The componentwise difference.
impl<S: Scalar> Sub for Vec2<S> {
    type Output = Vec2<S>;

    fn sub(self, rhs: Vec2<S>) -> (r: Vec2<S>) {
        Vec2 { x: self.x - rhs.x, y: self.y - rhs.y }
    }
}

impl<S: Scalar> vstd::std_specs::ops::SubSpecImpl for Vec2<S> {
    open spec fn obeys_sub_spec() -> bool {
        S::obeys_sub_spec()
    }

    open spec fn sub_req(self, rhs: Vec2<S>) -> bool {
        self.x.sub_req(rhs.x) && self.y.sub_req(rhs.y)
    }

    open spec fn sub_spec(self, rhs: Vec2<S>) -> Vec2<S> {
        Vec2 { x: self.x.sub_spec(rhs.x), y: self.y.sub_spec(rhs.y) }
    }
}

/// The componentwise product with one number.
impl<S: Scalar> Mul<S> for Vec2<S> {
    type Output = Vec2<S>;

    fn mul(self, rhs: S) -> (r: Vec2<S>) {
        Vec2 { x: self.x * rhs, y: self.y * rhs }
    }
}

impl<S: Scalar> vstd::std_specs::ops::MulSpecImpl<S> for Vec2<S> {
    open spec fn obeys_mul_spec() -> bool {
        S::obeys_mul_spec()
    }

    open spec fn mul_req(self, rhs: S) -> bool {
        self.x.mul_req(rhs) && self.y.mul_req(rhs)
    }

    open spec fn mul_spec(self, rhs: S) -> Vec2<S> {
        Vec2 { x: self.x.mul_spec(rhs), y: self.y.mul_spec(rhs) }
    }
}

/// A vector of three numbers.
#[derive(Clone, Copy, Debug, PartialEq)]
pub struct Vec3<S> {
    pub x: S,
    pub y: S,
    pub z: S,
}

/// The componentwise sum.
impl<S: Scalar> Add for Vec3<S> {
    type Output = Vec3<S>;

    fn add(self, rhs: Vec3<S>) -> (r: Vec3<S>) {
        Vec3 { x: self.x + rhs.x, y: self.y + rhs.y, z: self.z + rhs.z }
    }
}

impl<S: Scalar> vstd::std_specs::ops::AddSpecImpl for Vec3<S> {
    open spec fn obeys_add_spec() -> bool {
        S::obeys_add_spec()
    }

    open spec fn add_req(self, rhs: Vec3<S>) -> bool {
        self.x.add_req(rhs.x) && self.y.add_req(rhs.y) && self.z.add_req(rhs.z)
    }

    open spec fn add_spec(self, rhs: Vec3<S>) -> Vec3<S> {
        Vec3 { x: self.x.add_spec(rhs.x), y: self.y.add_spec(rhs.y), z: self.z.add_spec(rhs.z) }
    }
}

/// The componentwise difference.
impl<S: Scalar> Sub for Vec3<S> {
    type Output = Vec3<S>;

    fn sub(self, rhs: Vec3<S>) -> (r: Vec3<S>) {
        Vec3 { x: self.x - rhs.x, y: self.y - rhs.y, z: self.z - rhs.z }
    }
}

impl<S: Scalar> vstd::std_specs::ops::SubSpecImpl for Vec3<S> {
    open spec fn obeys_sub_spec() -> bool {
        S::obeys_sub_spec()
    }

    open spec fn sub_req(self, rhs: Vec3<S>) -> bool {
        self.x.sub_req(rhs.x) && self.y.sub_req(rhs.y) && self.z.sub_req(rhs.z)
    }

    open spec fn sub_spec(self, rhs: Vec3<S>) -> Vec3<S> {
        Vec3 { x: self.x.sub_spec(rhs.x), y: self.y.sub_spec(rhs.y), z: self.z.sub_spec(rhs.z) }
    }
}

/// The componentwise product with one number.
impl<S: Scalar> Mul<S> for Vec3<S> {
    type Output = Vec3<S>;

    fn mul(self, rhs: S) -> (r: Vec3<S>) {
        Vec3 { x: self.x * rhs, y: self.y * rhs, z: self.z * rhs }
    }
}

impl<S: Scalar> vstd::std_specs::ops::MulSpecImpl<S> for Vec3<S> {
    open spec fn obeys_mul_spec() -> bool {
        S::obeys_mul_spec()
    }

    open spec fn mul_req(self, rhs: S) -> bool {
        self.x.mul_req(rhs) && self.y.mul_req(rhs) && self.z.mul_req(rhs)
    }

    open spec fn mul_spec(self, rhs: S) -> Vec3<S> {
        Vec3 { x: self.x.mul_spec(rhs), y: self.y.mul_spec(rhs), z: self.z.mul_spec(rhs) }
    }
}

/// A vector of four numbers.
#[derive(Clone, Copy, Debug, PartialEq)]
pub struct Vec4<S> {
    pub x: S,
    pub y: S,
    pub z: S,
    pub w: S,
}

/// The componentwise sum.
impl<S: Scalar> Add for Vec4<S> {
    type Output = Vec4<S>;

    fn add(self, rhs: Vec4<S>) -> (r: Vec4<S>) {
        Vec4 { x: self.x + rhs.x, y: self.y + rhs.y, z: self.z + rhs.z, w: self.w + rhs.w }
    }
}

impl<S: Scalar> vstd::std_specs::ops::AddSpecImpl for Vec4<S> {
    open spec fn obeys_add_spec() -> bool {
        S::obeys_add_spec()
    }

    open spec fn add_req(self, rhs: Vec4<S>) -> bool {
        &&& self.x.add_req(rhs.x)
        &&& self.y.add_req(rhs.y)
        &&& self.z.add_req(rhs.z)
        &&& self.w.add_req(rhs.w)
    }

    open spec fn add_spec(self, rhs: Vec4<S>) -> Vec4<S> {
        Vec4 {
            x: self.x.add_spec(rhs.x),
            y: self.y.add_spec(rhs.y),
            z: self.z.add_spec(rhs.z),
            w: self.w.add_spec(rhs.w),
        }
    }
}

/// The componentwise difference.
impl<S: Scalar> Sub for Vec4<S> {
    type Output = Vec4<S>;

    fn sub(self, rhs: Vec4<S>) -> (r: Vec4<S>) {
        Vec4 { x: self.x - rhs.x, y: self.y - rhs.y, z: self.z - rhs.z, w: self.w - rhs.w }
    }
}

impl<S: Scalar> vstd::std_specs::ops::SubSpecImpl for Vec4<S> {
    open spec fn obeys_sub_spec() -> bool {
        S::obeys_sub_spec()
    }

    open spec fn sub_req(self, rhs: Vec4<S>) -> bool {
        &&& self.x.sub_req(rhs.x)
        &&& self.y.sub_req(rhs.y)
        &&& self.z.sub_req(rhs.z)
        &&& self.w.sub_req(rhs.w)
    }

    open spec fn sub_spec(self, rhs: Vec4<S>) -> Vec4<S> {
        Vec4 {
            x: self.x.sub_spec(rhs.x),
            y: self.y.sub_spec(rhs.y),
            z: self.z.sub_spec(rhs.z),
            w: self.w.sub_spec(rhs.w),
        }
    }
}

/// The componentwise product with one number.
impl<S: Scalar> Mul<S> for Vec4<S> {
    type Output = Vec4<S>;

    fn mul(self, rhs: S) -> (r: Vec4<S>) {
        Vec4 { x: self.x * rhs, y: self.y * rhs, z: self.z * rhs, w: self.w * rhs }
    }
}

impl<S: Scalar> vstd::std_specs::ops::MulSpecImpl<S> for Vec4<S> {
    open spec fn obeys_mul_spec() -> bool {
        S::obeys_mul_spec()
    }

    open spec fn mul_req(self, rhs: S) -> bool {
        self.x.mul_req(rhs) && self.y.mul_req(rhs) && self.z.mul_req(rhs) && self.w.mul_req(rhs)
    }

    open spec fn mul_spec(self, rhs: S) -> Vec4<S> {
        Vec4 {
            x: self.x.mul_spec(rhs),
            y: self.y.mul_spec(rhs),
            z: self.z.mul_spec(rhs),
            w: self.w.mul_spec(rhs),
        }
    }
}

/// Three indices into a vertex buffer.
pub type UVec3 = Vec3<u32>;

impl<S: Scalar> Vec3<S> {
    /// The dot product: `x * x' + y * y' + z * z'`, summed from the left.
    pub open spec fn spec_dot(self, rhs: Vec3<S>) -> S {
        self.x.mul_spec(rhs.x).add_spec(self.y.mul_spec(rhs.y)).add_spec(self.z.mul_spec(rhs.z))
    }

    /// No step of the dot product leaves the range of `S`.
    pub open spec fn dot_defined(self, rhs: Vec3<S>) -> bool {
        &&& self.x.mul_req(rhs.x)
        &&& self.y.mul_req(rhs.y)
        &&& self.z.mul_req(rhs.z)
        &&& self.x.mul_spec(rhs.x).add_req(self.y.mul_spec(rhs.y))
        &&& self.x.mul_spec(rhs.x).add_spec(self.y.mul_spec(rhs.y)).add_req(
            self.z.mul_spec(rhs.z),
        )
    }

    /// The dot product of two vectors.
    pub fn dot(self, rhs: Vec3<S>) -> (r: S)
        requires
            S::obeys_mul_spec(),
            S::obeys_add_spec(),
            self.dot_defined(rhs),
        ensures
            r == self.spec_dot(rhs),
    {
        self.x * rhs.x + self.y * rhs.y + self.z * rhs.z
    }

    /// The cross product.
    pub open spec fn spec_cross(self, rhs: Vec3<S>) -> Vec3<S> {
        Vec3 {
            x: self.y.mul_spec(rhs.z).sub_spec(rhs.y.mul_spec(self.z)),
            y: self.z.mul_spec(rhs.x).sub_spec(rhs.z.mul_spec(self.x)),
            z: self.x.mul_spec(rhs.y).sub_spec(rhs.x.mul_spec(self.y)),
        }
    }

    /// No step of the cross product leaves the range of `S`.
    pub open spec fn cross_defined(self, rhs: Vec3<S>) -> bool {
        &&& self.y.mul_req(rhs.z)
        &&& rhs.y.mul_req(self.z)
        &&& self.y.mul_spec(rhs.z).sub_req(rhs.y.mul_spec(self.z))
        &&& self.z.mul_req(rhs.x)
        &&& rhs.z.mul_req(self.x)
        &&& self.z.mul_spec(rhs.x).sub_req(rhs.z.mul_spec(self.x))
        &&& self.x.mul_req(rhs.y)
        &&& rhs.x.mul_req(self.y)
        &&& self.x.mul_spec(rhs.y).sub_req(rhs.x.mul_spec(self.y))
    }

    /// The cross product of two vectors.
    pub fn cross(self, rhs: Vec3<S>) -> (r: Vec3<S>)
        requires
            S::obeys_mul_spec(),
            self.cross_defined(rhs),
        ensures
            S::obeys_sub_spec() ==> r == self.spec_cross(rhs),
    {
        Vec3 {
            x: self.y * rhs.z - rhs.y * self.z,
            y: self.z * rhs.x - rhs.z * self.x,
            z: self.x * rhs.y - rhs.x * self.y,
        }
    }

    /// The vector of four numbers that ends in `w`.
    pub open spec fn spec_extend(self, w: S) -> Vec4<S> {
        Vec4 { x: self.x, y: self.y, z: self.z, w }
    }

    /// Appends `w` as the fourth number.
    pub fn extend(self, w: S) -> (r: Vec4<S>)
        ensures
            r == self.spec_extend(w),
    {
        Vec4 { x: self.x, y: self.y, z: self.z, w }
    }
}

impl<S: Scalar> Vec4<S> {
    /// The first three numbers.
    pub open spec fn spec_xyz(self) -> Vec3<S> {
        Vec3 { x: self.x, y: self.y, z: self.z }
    }

    /// The first three numbers.
    pub fn xyz(self) -> (r: Vec3<S>)
        ensures
            r == self.spec_xyz(),
    {
        Vec3 { x: self.x, y: self.y, z: self.z }
    }

    /// The first two numbers.
    pub open spec fn spec_xy(self) -> Vec2<S> {
        Vec2 { x: self.x, y: self.y }
    }

    /// The first two numbers.
    pub fn xy(self) -> (r: Vec2<S>)
        ensures
            r == self.spec_xy(),
    {
        Vec2 { x: self.x, y: self.y }
    }
}

} // verus!
